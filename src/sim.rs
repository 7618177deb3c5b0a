use vstd::prelude::*;

use crate::laws::{lemma_apply_keeps_wf, lemma_keeps_work_wf, lemma_notified_keeps_work};
use crate::model::{new_task, CreateRequest, Op, Posted, SchedModel, TaskModel};
use crate::scheduler::Scheduler;
use crate::state::{TaskState, STATE_INVALID};

verus! {

/// One creation request as the simulated scheduler recorded it.
pub struct SimRequest {
    pub weight: u32,
    pub stack: u32,
    pub name: String,
}

impl View for SimRequest {
    type V = CreateRequest;

    open spec fn view(&self) -> CreateRequest {
        CreateRequest { weight: self.weight, stack: self.stack, name: self.name@ }
    }
}

/// A notification that the simulated scheduler will deliver at time `at`.
#[derive(Clone, Copy)]
struct SimPost {
    target: u32,
    at: u64,
}

spec fn post_model(p: SimPost) -> Posted {
    Posted { target: p.target, at: p.at as nat }
}

/// The simulated scheduler's record of one task, but for its name and work.
#[derive(Clone, Copy)]
struct SimTask {
    state: TaskState,
    weight: u32,
    stack: u32,
    holds_work: bool,
    runs: u32,
    ran_on: u32,
    notes: u32,
}

spec fn task_model(t: SimTask, name: Seq<char>) -> TaskModel {
    TaskModel {
        state: t.state,
        weight: t.weight,
        stack: t.stack,
        name,
        holds_work: t.holds_work,
        runs: t.runs as nat,
        ran_on: t.ran_on,
        notes: t.notes,
    }
}

/// A deterministic, single-threaded scheduler with an instrumented clock.
///
/// Task 1 is the caller. A created task runs when it is joined: the
/// scheduler makes it current, invokes its unit of work, and makes the
/// joiner current again. Delays advance the clock without waiting. Other
/// tasks' notifications are posted ahead with `notify_after`; a caller that
/// waits for a notification sees them delivered in order, with the clock
/// moved to each one's moment, until one reaches it.
pub struct SimScheduler<F> {
    tasks: Vec<SimTask>,
    names: Vec<String>,
    work: Vec<Option<F>>,
    current: u32,
    clock: u64,
    capacity: u32,
    requests: Vec<SimRequest>,
    posted: Vec<SimPost>,
}

impl<F: FnOnce()> SimScheduler<F> {
    /// The model of the task at index `i`.
    closed spec fn task_at(&self, i: int) -> TaskModel {
        task_model(self.tasks@[i], self.names@[i]@)
    }

    closed spec fn sim_inv(&self) -> bool {
        &&& self.names@.len() == self.tasks@.len()
        &&& self.work@.len() == self.tasks@.len()
        &&& forall|i: int|
            0 <= i < self.tasks@.len() ==> {
                &&& (#[trigger] self.work@[i]) is Some == self.tasks@[i].holds_work
                &&& self.work@[i] matches Some(f) ==> call_requires(f, ())
            }
        &&& self.view().wf()
    }

    /// Creates a scheduler with room for `capacity` tasks, the caller among them.
    pub fn new(capacity: u32) -> (r: Self)
        requires
            1 <= capacity < u32::MAX,
        ensures
            r.inv(),
            r.model().tasks.len() == 1,
            r.model().task(1).state == TaskState::Running,
            !r.model().task(1).holds_work,
            r.model().task(1).notes == 0,
            r.model().current == 1,
            r.model().clock == 0,
            r.model().capacity == capacity,
            r.model().requests.len() == 0,
            r.model().posted.len() == 0,
    {
        let main = SimTask {
            state: TaskState::Running,
            weight: 8,
            stack: 8192,
            holds_work: false,
            runs: 0,
            ran_on: 0,
            notes: 0,
        };
        let mut tasks: Vec<SimTask> = Vec::new();
        tasks.push(main);
        let mut names: Vec<String> = Vec::new();
        names.push(String::from_str("main"));
        let mut work: Vec<Option<F>> = Vec::new();
        work.push(None);
        SimScheduler {
            tasks,
            names,
            work,
            current: 1,
            clock: 0,
            capacity,
            requests: Vec::new(),
            posted: Vec::new(),
        }
    }

    /// Milliseconds of simulated time so far.
    pub fn elapsed_ms(&self) -> (r: u64)
        requires
            self.inv(),
        ensures
            r == self.model().clock,
    {
        self.clock
    }

    /// Posts a notification that another task sends to task `id` once `ms`
    /// milliseconds from now have passed.
    pub fn notify_after(&mut self, id: u32, ms: u32)
        requires
            old(self).inv(),
            old(self).model().clock + ms <= u64::MAX,
        ensures
            final(self).inv(),
            final(self).model() == old(self).model().apply(Op::Post(id, ms)),
    {
        let ghost m = self@;
        self.posted.push(SimPost { target: id, at: self.clock + ms as u64 });
        assert(self@.tasks =~= m.tasks);
        assert(self@.posted =~= m.posted.push(Posted { target: id, at: m.clock + ms as nat }));
    }

    /// How many creation requests were made.
    pub fn request_count(&self) -> (r: usize)
        requires
            self.inv(),
        ensures
            r == self.model().requests.len(),
    {
        self.requests.len()
    }

    /// The creation request made `i`-th.
    pub fn request(&self, i: usize) -> (r: &SimRequest)
        requires
            self.inv(),
            i < self.model().requests.len(),
        ensures
            r@ == self.model().requests[i as int],
    {
        &self.requests[i]
    }

    /// How many times the unit of work of task `id` has been invoked.
    pub fn runs(&self, id: u32) -> (r: u32)
        requires
            self.inv(),
            self.model().valid_id(id),
        ensures
            r == self.model().task(id).runs,
    {
        self.tasks[(id - 1) as usize].runs
    }

    /// The priority weight of task `id`.
    pub fn weight(&self, id: u32) -> (r: u32)
        requires
            self.inv(),
            self.model().valid_id(id),
        ensures
            r == self.model().task(id).weight,
    {
        self.tasks[(id - 1) as usize].weight
    }

    /// The stack size in bytes of task `id`.
    pub fn stack(&self, id: u32) -> (r: u32)
        requires
            self.inv(),
            self.model().valid_id(id),
        ensures
            r == self.model().task(id).stack,
    {
        self.tasks[(id - 1) as usize].stack
    }

    /// The name of task `id`.
    pub fn name(&self, id: u32) -> (r: &str)
        requires
            self.inv(),
            self.model().valid_id(id),
        ensures
            r@ == self.model().task(id).name,
    {
        self.names[(id - 1) as usize].as_str()
    }
}

impl<F: FnOnce()> View for SimScheduler<F> {
    type V = SchedModel;

    closed spec fn view(&self) -> SchedModel {
        SchedModel {
            tasks: Seq::new(self.tasks@.len(), |i: int| self.task_at(i)),
            current: self.current,
            clock: self.clock as nat,
            capacity: self.capacity as nat,
            requests: self.requests@.map_values(|r: SimRequest| r@),
            posted: self.posted@.map_values(|p: SimPost| post_model(p)),
        }
    }
}

impl<F: FnOnce()> SimScheduler<F> {
    /// Replaces the record of the task at index `i`.
    fn put(&mut self, i: usize, t: SimTask)
        requires
            i < old(self).tasks@.len() < u32::MAX,
            old(self).names@.len() == old(self).tasks@.len(),
        ensures
            final(self).tasks@ == old(self).tasks@.update(i as int, t),
            final(self).names == old(self).names,
            final(self).work == old(self).work,
            final(self).current == old(self).current,
            final(self).clock == old(self).clock,
            final(self).capacity == old(self).capacity,
            final(self).requests == old(self).requests,
            final(self).posted == old(self).posted,
            final(self)@ == old(self)@.with_task(
                (i + 1) as u32,
                task_model(t, old(self).names@[i as int]@),
            ),
    {
        self.tasks.set(i, t);
        assert(self@.tasks =~= old(self)@.tasks.update(
            i as int,
            task_model(t, old(self).names@[i as int]@),
        ));
    }

    /// Notifies task `id`, as `SchedModel::notified` says.
    fn notify_task(&mut self, id: u32)
        requires
            old(self).sim_inv(),
        ensures
            final(self).sim_inv(),
            final(self)@ == old(self)@.notified(id),
    {
        let ghost m = self@;
        proof {
            lemma_notified_keeps_work(m, id);
            lemma_keeps_work_wf(m, m.notified(id));
        }
        if self.has_task(id) {
            let i = (id - 1) as usize;
            let t = self.tasks[i];
            if t.state != TaskState::Deleted {
                let notes = if t.notes == u32::MAX {
                    t.notes
                } else {
                    t.notes + 1
                };
                let state = if t.state == TaskState::Blocked {
                    TaskState::Ready
                } else {
                    t.state
                };
                self.put(i, SimTask { notes, state, ..t });
            }
        }
    }

    /// Whether `id` names a task of this scheduler.
    fn has_task(&self, id: u32) -> (r: bool)
        requires
            self.tasks@.len() < u32::MAX,
        ensures
            r == self@.valid_id(id),
    {
        1 <= id && (id as usize) <= self.tasks.len()
    }
}

impl<F: FnOnce()> Scheduler<F> for SimScheduler<F> {
    closed spec fn inv(&self) -> bool {
        self.sim_inv()
    }

    closed spec fn model(&self) -> SchedModel {
        self@
    }

    proof fn lemma_inv_gives_wf(&self) {
    }

    fn create(&mut self, work: F, weight: u32, stack: u32, name: &str) -> (r: Result<u32, F>) {
        let ghost m = self@;
        let ghost req = CreateRequest { weight, stack, name: name@ };
        proof {
            lemma_apply_keeps_wf(m, Op::Create(req));
        }
        self.requests.push(SimRequest { weight, stack, name: String::from_str(name) });
        assert(self@.requests =~= m.requests.push(req));
        if self.tasks.len() < self.capacity as usize {
            let id = (self.tasks.len() + 1) as u32;
            let t = SimTask {
                state: TaskState::Ready,
                weight,
                stack,
                holds_work: true,
                runs: 0,
                ran_on: 0,
                notes: 0,
            };
            self.tasks.push(t);
            self.names.push(String::from_str(name));
            self.work.push(Some(work));
            assert(self@.tasks =~= m.tasks.push(new_task(req)));
            assert(self@.requests =~= m.requests.push(req));
            assert(self@.tasks == m.apply(Op::Create(req)).tasks);
            assert(self@.requests == m.apply(Op::Create(req)).requests);
            assert(self@ == m.apply(Op::Create(req)));
            assert forall|i: int| 0 <= i < self.tasks@.len() implies {
                &&& (#[trigger] self.work@[i]) is Some == self.tasks@[i].holds_work
                &&& self.work@[i] matches Some(f) ==> call_requires(f, ())
            } by {
                if i < m.tasks.len() {
                    assert(old(self).work@[i] == self.work@[i]);
                }
            }
            Ok(id)
        } else {
            assert(self@.tasks =~= m.tasks);
            assert(self@ == m.apply(Op::Create(req)));
            Err(work)
        }
    }

    fn suspend(&mut self, id: u32) {
        let ghost m = self@;
        proof {
            lemma_apply_keeps_wf(m, Op::Suspend(id));
        }
        if self.has_task(id) {
            let i = (id - 1) as usize;
            let t = self.tasks[i];
            if t.state != TaskState::Deleted {
                self.put(i, SimTask { state: TaskState::Suspended, ..t });
            }
        }
    }

    fn resume(&mut self, id: u32) {
        let ghost m = self@;
        proof {
            lemma_apply_keeps_wf(m, Op::Resume(id));
        }
        if self.has_task(id) {
            let i = (id - 1) as usize;
            let t = self.tasks[i];
            if t.state == TaskState::Suspended {
                self.put(i, SimTask { state: TaskState::Ready, ..t });
            }
        }
    }

    fn set_priority(&mut self, id: u32, weight: u32) {
        let ghost m = self@;
        proof {
            lemma_apply_keeps_wf(m, Op::SetPriority(id, weight));
        }
        if self.has_task(id) {
            let i = (id - 1) as usize;
            let t = self.tasks[i];
            if t.state != TaskState::Deleted {
                self.put(i, SimTask { weight, ..t });
            }
        }
    }

    fn get_state(&self, id: u32) -> (r: u32) {
        if self.has_task(id) {
            self.tasks[(id - 1) as usize].state.code()
        } else {
            STATE_INVALID
        }
    }

    fn delete(&mut self, id: u32) {
        let ghost m = self@;
        proof {
            lemma_apply_keeps_wf(m, Op::Delete(id));
        }
        if self.has_task(id) && id != self.current {
            let i = (id - 1) as usize;
            let t = self.tasks[i];
            self.work.push(None);
            self.work.swap_remove(i);
            assert(self.work@ =~= old(self).work@.update(i as int, None));
            assert(self@.tasks =~= m.tasks);
            self.put(i, SimTask { state: TaskState::Deleted, holds_work: false, ..t });
        }
    }

    fn join(&mut self, id: u32) {
        let ghost m = self@;
        proof {
            lemma_apply_keeps_wf(m, Op::Join(id));
        }
        if self.has_task(id) && id != self.current {
            let i = (id - 1) as usize;
            let t = self.tasks[i];
            assert(m.tasks[i as int].runs <= 1);
            if t.holds_work {
                self.work.push(None);
                let w = self.work.swap_remove(i);
                assert(self.work@ =~= old(self).work@.update(i as int, None));
                if let Some(f) = w {
                    let joiner = self.current;
                    self.current = id;
                    f();
                    self.current = joiner;
                }
                assert(self@.tasks =~= m.tasks);
                self.put(
                    i,
                    SimTask {
                        state: TaskState::Deleted,
                        holds_work: false,
                        runs: t.runs + 1,
                        ran_on: id,
                        ..t
                    },
                );
            } else {
                self.put(i, SimTask { state: TaskState::Deleted, ..t });
            }
        }
    }

    fn current(&self) -> (r: u32) {
        self.current
    }

    fn delay(&mut self, ms: u32) {
        let ghost m = self@;
        proof {
            lemma_apply_keeps_wf(m, Op::Delay(ms));
        }
        self.clock = self.clock + ms as u64;
        assert(self@.tasks =~= m.tasks);
    }

    fn notify(&mut self, id: u32) {
        self.notify_task(id);
    }

    fn notify_take(&mut self) -> (r: u32) {
        let ghost m = self@;
        proof {
            lemma_apply_keeps_wf(m, Op::Take);
        }
        let c = self.current;
        let i = (c - 1) as usize;
        while self.tasks[i].notes == 0 && self.posted.len() > 0
            invariant
                self.sim_inv(),
                self.current == c,
                m.valid_id(c),
                i == c - 1,
                self@.woken() == m.woken(),
            decreases self.posted.len(),
        {
            let ghost before = self@;
            let p = self.posted.remove(0);
            if p.at > self.clock {
                self.clock = p.at;
            }
            assert(self@.tasks =~= before.tasks);
            assert(self@.posted =~= before.posted.drop_first());
            self.notify_task(p.target);
            assert(self@ == before.deliver_first());
        }
        let t = self.tasks[i];
        self.put(i, SimTask { notes: 0, ..t });
        t.notes
    }
}

} // verus!
