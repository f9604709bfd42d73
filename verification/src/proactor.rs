//! The task scheduler of the proactor.
//!
//! The proactor keeps the live tasks by id and a FIFO queue of ids to poll.
//! Its run loop is a sequence of rounds: a round takes the whole ready queue as
//! its batch and polls, in order, each task of the batch that is still live;
//! the task is taken out of the table while it is polled and put back if it is
//! still pending. Ids woken meanwhile go to the ready queue, for the next round.
//! When the batch is spent and tasks remain, the loop waits for completions.
//!
//! The futures themselves are polled by the caller: `next_step` hands out one
//! task (or says to wait, or that the loop is over), and `put_back` returns a
//! task that is still pending.
use std::collections::HashMap;
use std::collections::VecDeque;
use vstd::prelude::*;

verus! {

broadcast use vstd::std_specs::hash::group_hash_axioms;

/// What the run loop does next.
pub enum Step<T> {
    /// The task to poll next; it has left the table, and `put_back` returns it if still pending.
    Poll(u64, T),
    /// The round is over and tasks remain: wait for completions, wake their tasks.
    Wait,
    /// No task is left: the loop is over.
    Idle,
}

pub struct ProactorView<T> {
    /// Live tasks that are not being polled, by id.
    pub tasks: Map<u64, T>,
    /// Ids woken since the current round began (or since the last round).
    pub ready: Seq<u64>,
    /// Ids of the current round not polled yet.
    pub batch: Seq<u64>,
    /// Whether a round is under way.
    pub in_round: bool,
    /// The id the next spawned task gets.
    pub next_id: u64,
    /// The task handed out by the last step, while it is being polled.
    pub polling: Option<u64>,
    /// For each task, the tasks waiting for it to finish, in the order they asked.
    pub joiners: Map<u64, Seq<u64>>,
}

/// Scheduler state: the live tasks, the ready queue and the current round.
pub struct Proactor<T> {
    tasks: HashMap<u64, T>,
    ready_queue: VecDeque<u64>,
    batch: VecDeque<u64>,
    in_round: bool,
    next_id: u64,
    polling: Option<u64>,
    joiners: HashMap<u64, Vec<u64>>,
}

/// A handle on a spawned task, by which other tasks wait for it to finish.
pub struct JoinHandle {
    task_id: u64,
}

impl JoinHandle {
    pub closed spec fn spec_id(&self) -> u64 {
        self.task_id
    }

    /// The handle on the task with this id.
    pub fn new(task_id: u64) -> (h: Self)
        ensures
            h.spec_id() == task_id,
    {
        JoinHandle { task_id }
    }

    /// The id of the task.
    pub fn id(&self) -> (id: u64)
        ensures
            id == self.spec_id(),
    {
        self.task_id
    }
}

/// The ids of a batch from the first one that names a live task on.
pub open spec fn skip_finished(batch: Seq<u64>, live: Set<u64>) -> Seq<u64>
    decreases batch.len(),
{
    if batch.len() == 0 {
        batch
    } else if live.contains(batch[0]) {
        batch
    } else {
        skip_finished(batch.skip(1), live)
    }
}

/// The batch and ready queue a step works on: a step outside a round starts
/// one, taking the whole ready queue as the batch.
pub open spec fn round_start<T>(v: ProactorView<T>) -> (Seq<u64>, Seq<u64>) {
    if v.in_round {
        (v.batch, v.ready)
    } else {
        (v.ready, Seq::empty())
    }
}

/// One step of the run loop.
pub open spec fn next_step_spec<T>(v: ProactorView<T>) -> (ProactorView<T>, Step<T>) {
    if !v.in_round && v.tasks.dom().len() == 0 {
        (ProactorView { polling: None, ..v }, Step::Idle)
    } else {
        let (batch, ready) = round_start(v);
        let rest = skip_finished(batch, v.tasks.dom());
        if rest.len() > 0 {
            let id = rest[0];
            (
                ProactorView {
                    tasks: v.tasks.remove(id),
                    ready,
                    batch: rest.skip(1),
                    in_round: true,
                    next_id: v.next_id,
                    polling: Some(id),
                    joiners: v.joiners,
                },
                Step::Poll(id, v.tasks[id]),
            )
        } else {
            (
                ProactorView {
                    tasks: v.tasks,
                    ready,
                    batch: Seq::empty(),
                    in_round: false,
                    next_id: v.next_id,
                    polling: None,
                    joiners: v.joiners,
                },
                if v.tasks.dom().len() == 0 {
                    Step::Idle
                } else {
                    Step::Wait
                },
            )
        }
    }
}

/// Spawning: the task is live under the next id, which is queued last.
pub open spec fn spawn_spec<T>(v: ProactorView<T>, task: T) -> ProactorView<T> {
    ProactorView {
        tasks: v.tasks.insert(v.next_id, task),
        ready: v.ready.push(v.next_id),
        next_id: (v.next_id + 1) as u64,
        ..v
    }
}

/// Waking: the id is queued last.
pub open spec fn wake_spec<T>(v: ProactorView<T>, id: u64) -> ProactorView<T> {
    ProactorView { ready: v.ready.push(id), ..v }
}

/// Putting a pending task back into the table.
pub open spec fn put_back_spec<T>(v: ProactorView<T>, id: u64, task: T) -> ProactorView<T> {
    ProactorView { tasks: v.tasks.insert(id, task), polling: None, ..v }
}

/// The tasks waiting for a task to finish.
pub open spec fn joiners_of<T>(v: ProactorView<T>, id: u64) -> Seq<u64> {
    if v.joiners.contains_key(id) {
        v.joiners[id]
    } else {
        Seq::empty()
    }
}

/// A task has finished: it was spawned, and it is neither in the table nor
/// being polled.
pub open spec fn finished<T>(v: ProactorView<T>, id: u64) -> bool {
    &&& id < v.next_id
    &&& !v.tasks.contains_key(id)
    &&& v.polling != Some(id)
}

/// A task that has not finished gets one more waiter, last in line.
pub open spec fn join_spec<T>(v: ProactorView<T>, id: u64, waiter: u64) -> ProactorView<T> {
    ProactorView { joiners: v.joiners.insert(id, joiners_of(v, id).push(waiter)), ..v }
}

/// The polled task finished: the tasks waiting for it are queued, in order.
pub open spec fn task_done_spec<T>(v: ProactorView<T>, id: u64) -> ProactorView<T> {
    ProactorView {
        ready: v.ready + joiners_of(v, id),
        polling: None,
        joiners: v.joiners.remove(id),
        ..v
    }
}

pub open spec fn view_wf<T>(v: ProactorView<T>) -> bool {
    &&& v.tasks.dom().finite()
    &&& forall|id: u64| #[trigger] v.tasks.contains_key(id) ==> id < v.next_id
    &&& !v.in_round ==> v.batch.len() == 0
    &&& v.polling matches Some(p) ==> p < v.next_id && !v.tasks.contains_key(p)
}

proof fn lemma_skip_finished<T>(batch: Seq<u64>, live: Set<u64>)
    ensures
        ({
            let r = skip_finished(batch, live);
            &&& r.len() <= batch.len()
            &&& r =~= batch.skip(batch.len() - r.len())
            &&& r.len() > 0 ==> live.contains(r[0])
        }),
    decreases batch.len(),
{
    if batch.len() > 0 && !live.contains(batch[0]) {
        lemma_skip_finished::<T>(batch.skip(1), live);
        let r = skip_finished(batch.skip(1), live);
        assert(batch.skip(1).skip(batch.skip(1).len() - r.len()) =~= batch.skip(
            batch.len() - r.len(),
        ));
    }
}

/// A task that has finished stays finished and is never handed out again:
/// spawning, waking, joining, stepping, and putting back or finishing the
/// task being polled all leave it out, and a step polls only tasks in the table.
pub proof fn lemma_finished_task_stays_finished<T>(
    v: ProactorView<T>,
    id: u64,
    task: T,
    other: u64,
    waiter: u64,
)
    requires
        view_wf(v),
        finished(v, id),
    ensures
        v.next_id < u64::MAX ==> finished(spawn_spec(v, task), id),
        finished(wake_spec(v, other), id),
        finished(ProactorView { joiners: v.joiners.insert(other, joiners_of(v, other).push(waiter)), ..v }, id),
        finished(next_step_spec(v).0, id),
        !(next_step_spec(v).1 matches Step::Poll(j, _) && j == id),
        v.polling == Some(other) ==> finished(put_back_spec(v, other, task), id),
        v.polling == Some(other) ==> finished(task_done_spec(v, other), id),
{
    if v.in_round || v.tasks.dom().len() != 0 {
        let (batch, ready) = round_start(v);
        lemma_skip_finished::<T>(batch, v.tasks.dom());
    }
}

/// A task is polled only once its id is queued: a step polls an id of the
/// round's batch, and an id in neither the ready queue nor the batch stays out
/// of both after a step (only `spawn`, `wake` and a finished task's joiners
/// queue ids).
pub proof fn lemma_polled_only_when_queued<T>(v: ProactorView<T>, id: u64)
    requires
        view_wf(v),
        !v.ready.contains(id),
        !v.batch.contains(id),
    ensures
        !(next_step_spec(v).1 matches Step::Poll(j, _) && j == id),
        !next_step_spec(v).0.ready.contains(id),
        !next_step_spec(v).0.batch.contains(id),
{
    if v.in_round || v.tasks.dom().len() != 0 {
        let (batch, ready) = round_start(v);
        lemma_skip_finished::<T>(batch, v.tasks.dom());
        let rest = skip_finished(batch, v.tasks.dom());
        assert(!batch.contains(id));
        if rest.len() > 0 {
            let k = batch.len() - rest.len();
            assert(rest[0] == batch[k]);
            assert forall|i: int| 0 <= i < rest.skip(1).len() implies rest.skip(1)[i] != id by {
                assert(rest.skip(1)[i] == batch[k + 1 + i]);
            }
        }
        if !v.in_round {
            assert(ready =~= Seq::<u64>::empty());
        }
    }
}

/// Polling a step from the batch: the id handed out was queued.
pub proof fn lemma_polled_id_was_queued<T>(v: ProactorView<T>)
    requires
        view_wf(v),
    ensures
        next_step_spec(v).1 matches Step::Poll(j, _) ==> round_start(v).0.contains(j),
{
    if v.in_round || v.tasks.dom().len() != 0 {
        let (batch, ready) = round_start(v);
        lemma_skip_finished::<T>(batch, v.tasks.dom());
        let rest = skip_finished(batch, v.tasks.dom());
        if rest.len() > 0 {
            assert(rest[0] == batch[batch.len() - rest.len()]);
        }
    }
}

/// Joining a task completes only after it has finished, and does complete
/// once it has: a join on a task that is live (in the table or being polled)
/// waits; when the polled task finishes, every task that joined it is queued,
/// in the order they asked, and from then on a join on it completes.
pub proof fn lemma_join_completes_after_task<T>(v: ProactorView<T>, id: u64, waiter: u64, w: u64)
    requires
        view_wf(v),
        v.polling == Some(id),
    ensures
        !finished(v, id),
        ({
            let joined = join_spec(v, id, waiter);
            let done = task_done_spec(joined, id);
            &&& view_wf(joined)
            &&& view_wf(done)
            &&& done.ready == v.ready + joiners_of(v, id).push(waiter)
            &&& done.ready.last() == waiter
            &&& finished(done, id)
            &&& finished(wake_spec(done, w), id)
            &&& finished(next_step_spec(done).0, id)
        }),
{
    let joined = join_spec(v, id, waiter);
    let done = task_done_spec(joined, id);
    assert(joiners_of(joined, id) == joiners_of(v, id).push(waiter));
    assert(view_wf(done));
    lemma_finished_task_stays_finished(done, id, arbitrary(), w, waiter);
}

/// A task in the table has not finished, so a join on it waits.
pub proof fn lemma_live_task_not_finished<T>(v: ProactorView<T>, id: u64)
    requires
        v.tasks.contains_key(id),
    ensures
        !finished(v, id),
{
}

/// Waking a task during a round does not change what the round polls: the
/// id waits in the ready queue for the next round.
pub proof fn lemma_wake_waits_for_next_round<T>(v: ProactorView<T>, id: u64)
    requires
        view_wf(v),
        v.in_round,
    ensures
        next_step_spec(wake_spec(v, id)).1 == next_step_spec(v).1,
        next_step_spec(wake_spec(v, id)).0 == wake_spec(next_step_spec(v).0, id),
{
    assert(wake_spec(v, id).batch == v.batch);
}

/// The loop ends only when no task is live, and waits only when some task is.
pub proof fn lemma_idle_iff_no_tasks<T>(v: ProactorView<T>)
    requires
        view_wf(v),
    ensures
        next_step_spec(v).1 is Idle ==> v.tasks.dom().len() == 0,
        next_step_spec(v).1 is Wait ==> v.tasks.dom().len() > 0,
        v.tasks.dom().len() == 0 ==> !(next_step_spec(v).1 is Poll),
{
    if v.in_round || v.tasks.dom().len() != 0 {
        let (batch, ready) = round_start(v);
        lemma_skip_finished::<T>(batch, v.tasks.dom());
        let rest = skip_finished(batch, v.tasks.dom());
        if rest.len() > 0 {
            assert(v.tasks.dom().contains(rest[0]));
            if v.tasks.dom().len() == 0 {
                assert(v.tasks.dom() =~= Set::<u64>::empty());
            }
        }
    }
}

impl<T> Proactor<T> {
    pub closed spec fn view(&self) -> ProactorView<T> {
        ProactorView {
            tasks: self.tasks@,
            ready: self.ready_queue@,
            batch: self.batch@,
            in_round: self.in_round,
            next_id: self.next_id,
            polling: self.polling,
            joiners: self.joiners@.map_values(|w: Vec<u64>| w@),
        }
    }

    pub open spec fn wf(&self) -> bool {
        view_wf(self.view())
    }

    /// A scheduler with no task.
    pub fn new() -> (p: Self)
        ensures
            p.wf(),
            p.view().tasks == Map::<u64, T>::empty(),
            p.view().ready == Seq::<u64>::empty(),
            p.view().batch == Seq::<u64>::empty(),
            !p.view().in_round,
            p.view().next_id == 0,
            p.view().polling == None::<u64>,
            p.view().joiners == Map::<u64, Seq<u64>>::empty(),
    {
        Proactor {
            tasks: HashMap::new(),
            ready_queue: VecDeque::new(),
            batch: VecDeque::new(),
            in_round: false,
            next_id: 0,
            polling: None,
            joiners: HashMap::new(),
        }
    }

    /// Whether every id has been handed out already.
    pub fn ids_exhausted(&self) -> (b: bool)
        ensures
            b == (self.view().next_id == u64::MAX),
    {
        self.next_id == u64::MAX
    }

    /// Whether this id was handed out by `spawn`.
    pub fn was_issued(&self, id: u64) -> (b: bool)
        ensures
            b == (id < self.view().next_id),
    {
        id < self.next_id
    }

    /// Whether the table holds no task (the task being polled, if any, is
    /// not in it).
    pub fn is_empty(&self) -> (b: bool)
        ensures
            b == (self.view().tasks.dom().len() == 0),
    {
        self.tasks.is_empty()
    }

    /// Adds a task under a fresh id and queues it; returns the id.
    pub fn spawn(&mut self, task: T) -> (id: u64)
        requires
            old(self).wf(),
            old(self).view().next_id < u64::MAX,
        ensures
            final(self).wf(),
            id == old(self).view().next_id,
            !old(self).view().tasks.contains_key(id),
            final(self).view() == spawn_spec(old(self).view(), task),
    {
        let id = self.next_id;
        self.tasks.insert(id, task);
        self.ready_queue.push_back(id);
        self.next_id = id + 1;
        id
    }

    /// Queues a task to be polled in the next round; the id of a task that
    /// has finished is queued too, and skipped when its turn comes.
    pub fn wake(&mut self, id: u64)
        requires
            old(self).wf(),
        ensures
            final(self).wf(),
            final(self).view() == wake_spec(old(self).view(), id),
    {
        self.ready_queue.push_back(id);
    }

    /// Queues every id, in order.
    pub fn wake_all(&mut self, ids: Vec<u64>)
        requires
            old(self).wf(),
        ensures
            final(self).wf(),
            final(self).view() == (ProactorView { ready: old(self).view().ready + ids@, ..old(self).view() }),
    {
        let mut i: usize = 0;
        while i < ids.len()
            invariant
                0 <= i <= ids@.len(),
                self.wf(),
                self.view() == (ProactorView { ready: old(self).view().ready + ids@.take(i as int), ..old(self).view() }),
            decreases ids@.len() - i,
        {
            let id = ids[i];
            self.ready_queue.push_back(id);
            proof {
                assert(old(self).view().ready + ids@.take(i + 1) =~= (old(self).view().ready
                    + ids@.take(i as int)).push(id));
            }
            i = i + 1;
        }
        proof {
            assert(ids@.take(i as int) =~= ids@);
        }
    }

    /// Returns a task that is still pending to the table.
    pub fn put_back(&mut self, id: u64, task: T)
        requires
            old(self).wf(),
            old(self).view().polling == Some(id),
        ensures
            final(self).wf(),
            final(self).view() == put_back_spec(old(self).view(), id, task),
    {
        self.tasks.insert(id, task);
        self.polling = None;
    }

    /// Whether the task with id `id` is the one handed out by the last step.
    pub fn is_polling(&self, id: u64) -> (b: bool)
        ensures
            b == (self.view().polling == Some(id)),
    {
        match self.polling {
            Some(p) => p == id,
            None => false,
        }
    }

    /// Whether the task has finished.
    pub fn is_finished(&self, id: u64) -> (b: bool)
        requires
            self.wf(),
        ensures
            b == finished(self.view(), id),
    {
        id < self.next_id && !self.tasks.contains_key(&id) && !self.is_polling(id)
    }

    /// Asks to be woken when the task of `handle` finishes: `true` if it has
    /// finished already (nothing changes); otherwise `waiter` is added to the
    /// tasks waiting for it and `false` is returned.
    pub fn join(&mut self, handle: &JoinHandle, waiter: u64) -> (done: bool)
        requires
            old(self).wf(),
        ensures
            final(self).wf(),
            done == finished(old(self).view(), handle.spec_id()),
            done ==> final(self).view() == old(self).view(),
            !done ==> final(self).view() == join_spec(old(self).view(), handle.spec_id(), waiter),
    {
        let id = handle.id();
        if self.is_finished(id) {
            return true;
        }
        let ghost before = joiners_of(self.view(), id);
        let mut waiting: Vec<u64> = match self.joiners.remove(&id) {
            Some(w) => w,
            None => Vec::new(),
        };
        proof {
            assert(waiting@ =~= before);
        }
        waiting.push(waiter);
        let ghost list = waiting@;
        self.joiners.insert(id, waiting);
        proof {
            assert(self.view().joiners =~= old(self).view().joiners.insert(id, list));
        }
        false
    }

    /// The task handed out by the last step has finished: the tasks waiting
    /// for it are queued, in the order they asked.
    pub fn task_done(&mut self, id: u64)
        requires
            old(self).wf(),
            old(self).view().polling == Some(id),
        ensures
            final(self).wf(),
            final(self).view() == task_done_spec(old(self).view(), id),
            finished(final(self).view(), id),
    {
        self.polling = None;
        match self.joiners.remove(&id) {
            Some(waiting) => {
                proof {
                    assert(old(self).joiners@.contains_key(id));
                    assert(old(self).joiners@[id] == waiting);
                    assert(joiners_of(old(self).view(), id) == waiting@);
                    assert(self.view().joiners =~= old(self).view().joiners.remove(id));
                }
                self.wake_all(waiting);
            },
            None => {
                proof {
                    assert(self.ready_queue@ + Seq::<u64>::empty() =~= self.ready_queue@);
                    assert(self.view().joiners =~= old(self).view().joiners.remove(id));
                }
            },
        }
    }

    /// The next step of the run loop.
    pub fn next_step(&mut self) -> (step: Step<T>)
        requires
            old(self).wf(),
        ensures
            final(self).wf(),
            (final(self).view(), step) == next_step_spec(old(self).view()),
    {
        self.polling = None;
        let ghost v = self.view();
        if !self.in_round {
            if self.tasks.is_empty() {
                return Step::Idle;
            }
            self.batch = self.ready_queue.split_off(0);
            self.in_round = true;
            proof {
                assert(self.ready_queue@ =~= Seq::<u64>::empty());
                assert(self.batch@ =~= v.ready);
            }
        }
        let ghost live = self.tasks@.dom();
        proof {
            lemma_skip_finished::<T>(self.batch@, live);
        }
        while self.batch.len() > 0
            invariant
                self.tasks@ == v.tasks,
                live == v.tasks.dom(),
                self.in_round,
                self.ready_queue@ == round_start(v).1,
                self.next_id == v.next_id,
                skip_finished(self.batch@, live) == skip_finished(round_start(v).0, live),
                view_wf(v),
                v == (ProactorView { polling: None, ..old(self).view() }),
                self.polling == None::<u64>,
                self.joiners@ == old(self).joiners@,
            decreases self.batch@.len(),
        {
            let ghost pre = self.batch@;
            let id = self.batch.pop_front().unwrap();
            proof {
                assert(pre.skip(1) =~= self.batch@);
                assert(pre[0] == id);
            }
            match self.tasks.remove(&id) {
                Some(task) => {
                    proof {
                        assert(live.contains(id));
                        assert(skip_finished(pre, live) == pre);
                        assert(self.tasks@ =~= v.tasks.remove(id));
                        assert(task == v.tasks[id]);
                        assert(skip_finished(round_start(v).0, live) == pre);
                        assert(v.tasks.dom().contains(id));
                        if v.tasks.dom().len() == 0 {
                            assert(v.tasks.dom() =~= Set::<u64>::empty());
                        }
                    }
                    self.polling = Some(id);
                    return Step::Poll(id, task);
                },
                None => {
                    proof {
                        assert(!live.contains(id));
                        assert(skip_finished(pre, live) == skip_finished(pre.skip(1), live));
                        assert(self.tasks@ =~= v.tasks);
                    }
                },
            }
        }
        proof {
            assert(self.batch@ =~= Seq::<u64>::empty());
            assert(skip_finished(self.batch@, live) =~= Seq::<u64>::empty());
        }
        self.in_round = false;
        if self.tasks.is_empty() {
            Step::Idle
        } else {
            Step::Wait
        }
    }
}

} // verus!
