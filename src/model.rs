use vstd::prelude::*;

use crate::state::TaskState;

verus! {

/// What a creation request hands the scheduler, besides the unit of work.
pub struct CreateRequest {
    pub weight: u32,
    pub stack: u32,
    pub name: Seq<char>,
}

/// What the scheduler knows of one task.
pub struct TaskModel {
    pub state: TaskState,
    pub weight: u32,
    pub stack: u32,
    pub name: Seq<char>,
    /// The scheduler still owns the task's unit of work, not yet invoked.
    pub holds_work: bool,
    /// How many times the unit of work has been invoked. This is bookkeeping:
    /// an implementation must raise it exactly when it calls the work.
    pub runs: nat,
    /// The task that was current while the unit of work ran.
    pub ran_on: u32,
    /// The pending notification value.
    pub notes: u32,
}

/// A notification that another task will send to `target` at time `at`.
pub struct Posted {
    pub target: u32,
    pub at: nat,
}

/// The scheduler as a whole. The task with id `i` is `tasks[i - 1]`; id 0 is
/// the creation failure sentinel and names no task.
pub struct SchedModel {
    pub tasks: Seq<TaskModel>,
    /// The id of the calling task.
    pub current: u32,
    /// Milliseconds of simulated time.
    pub clock: nat,
    /// How many task control blocks can exist.
    pub capacity: nat,
    /// Every creation request ever made, in order, successful or not.
    pub requests: Seq<CreateRequest>,
    /// Notifications that other tasks will send, in the order they arrive.
    pub posted: Seq<Posted>,
}

/// One request to the scheduler that changes its state.
pub enum Op {
    Create(CreateRequest),
    Suspend(u32),
    Resume(u32),
    SetPriority(u32, u32),
    Delete(u32),
    Join(u32),
    Delay(u32),
    Notify(u32),
    /// Another task will notify the first id after the given milliseconds.
    Post(u32, u32),
    /// The calling task waits for a notification if none is pending, then
    /// takes its value and clears its slot.
    Take,
}

/// The record of a newly created task.
pub open spec fn new_task(req: CreateRequest) -> TaskModel {
    TaskModel {
        state: TaskState::Ready,
        weight: req.weight,
        stack: req.stack,
        name: req.name,
        holds_work: true,
        runs: 0,
        ran_on: 0,
        notes: 0,
    }
}

/// A notification count raised by one, saturating at the largest value.
pub open spec fn bump(n: u32) -> u32 {
    if n == u32::MAX {
        n
    } else {
        (n + 1) as u32
    }
}

impl SchedModel {
    /// Whether `id` names a task that was created.
    pub open spec fn valid_id(self, id: u32) -> bool {
        1 <= id <= self.tasks.len()
    }

    /// The record of the task with id `id`.
    pub open spec fn task(self, id: u32) -> TaskModel {
        self.tasks[id - 1]
    }

    /// Whether a creation request made now would succeed.
    pub open spec fn has_room(self) -> bool {
        self.tasks.len() < self.capacity
    }

    /// The id that the next successful creation returns.
    pub open spec fn next_id(self) -> u32 {
        (self.tasks.len() + 1) as u32
    }

    /// The model with the record of task `id` replaced.
    pub open spec fn with_task(self, id: u32, t: TaskModel) -> SchedModel {
        SchedModel { tasks: self.tasks.update(id - 1, t), ..self }
    }

    /// The state reported for `id`: `Invalid` where it names no task.
    pub open spec fn state_of(self, id: u32) -> TaskState {
        if self.valid_id(id) {
            self.task(id).state
        } else {
            TaskState::Invalid
        }
    }

    /// The scheduler once task `id` is notified: its value is raised by one,
    /// and it is woken if it was blocked. A deleted task is not notified.
    pub open spec fn notified(self, id: u32) -> SchedModel {
        if self.valid_id(id) && self.task(id).state != TaskState::Deleted {
            let t = self.task(id);
            let state = if t.state == TaskState::Blocked {
                TaskState::Ready
            } else {
                t.state
            };
            self.with_task(id, TaskModel { notes: bump(t.notes), state, ..t })
        } else {
            self
        }
    }

    /// Whether a notification is pending for the calling task.
    pub open spec fn has_pending(self) -> bool {
        self.valid_id(self.current) && self.task(self.current).notes > 0
    }

    /// Whether a notification for the calling task is on its way.
    pub open spec fn wake_coming(self) -> bool {
        exists|i: int| 0 <= i < self.posted.len() && #[trigger] self.posted[i].target == self.current
    }

    /// The first notification on its way is sent: time moves to its moment,
    /// and its target is notified.
    pub open spec fn deliver_first(self) -> SchedModel {
        let p = self.posted[0];
        let clock = if p.at > self.clock {
            p.at
        } else {
            self.clock
        };
        SchedModel { clock, posted: self.posted.drop_first(), ..self }.notified(p.target)
    }

    /// The scheduler once the calling task has waited for a notification:
    /// notifications on their way are sent, in order, until one is pending.
    pub open spec fn woken(self) -> SchedModel
        decreases self.posted.len(),
    {
        if self.has_pending() || self.posted.len() == 0 {
            self
        } else {
            self.deliver_first().woken()
        }
    }

    /// What the calling task takes from its notification slot: the value
    /// pending once it has waited for one.
    pub open spec fn taken(self) -> u32 {
        let w = self.woken();
        w.task(w.current).notes
    }

    /// The scheduler after one request.    /// The scheduler after one request.
    pub open spec fn apply(self, op: Op) -> SchedModel {
        match op {
            Op::Create(req) => {
                let logged = SchedModel { requests: self.requests.push(req), ..self };
                if self.has_room() {
                    SchedModel { tasks: self.tasks.push(new_task(req)), ..logged }
                } else {
                    logged
                }
            },
            Op::Suspend(id) => {
                if self.valid_id(id) && self.task(id).state != TaskState::Deleted {
                    self.with_task(id, TaskModel { state: TaskState::Suspended, ..self.task(id) })
                } else {
                    self
                }
            },
            Op::Resume(id) => {
                if self.valid_id(id) && self.task(id).state == TaskState::Suspended {
                    self.with_task(id, TaskModel { state: TaskState::Ready, ..self.task(id) })
                } else {
                    self
                }
            },
            Op::SetPriority(id, w) => {
                if self.valid_id(id) && self.task(id).state != TaskState::Deleted {
                    self.with_task(id, TaskModel { weight: w, ..self.task(id) })
                } else {
                    self
                }
            },
            Op::Delete(id) => {
                if self.valid_id(id) && id != self.current {
                    self.with_task(
                        id,
                        TaskModel { state: TaskState::Deleted, holds_work: false, ..self.task(id) },
                    )
                } else {
                    self
                }
            },
            Op::Join(id) => {
                if self.valid_id(id) && id != self.current {
                    let t = self.task(id);
                    if t.holds_work {
                        self.with_task(
                            id,
                            TaskModel {
                                state: TaskState::Deleted,
                                holds_work: false,
                                runs: t.runs + 1,
                                ran_on: id,
                                ..t
                            },
                        )
                    } else {
                        self.with_task(id, TaskModel { state: TaskState::Deleted, ..t })
                    }
                } else {
                    self
                }
            },
            Op::Delay(ms) => SchedModel { clock: self.clock + ms as nat, ..self },
            Op::Notify(id) => self.notified(id),
            Op::Post(id, ms) => SchedModel {
                posted: self.posted.push(Posted { target: id, at: self.clock + ms as nat }),
                ..self
            },
            Op::Take => {
                let w = self.woken();
                if w.valid_id(w.current) {
                    w.with_task(w.current, TaskModel { notes: 0, ..w.task(w.current) })
                } else {
                    w
                }
            },
        }
    }

    /// The scheduler after a series of requests, in order.
    pub open spec fn apply_all(self, ops: Seq<Op>) -> SchedModel
        decreases ops.len(),
    {
        if ops.len() == 0 {
            self
        } else {
            self.apply(ops[0]).apply_all(ops.drop_first())
        }
    }

    /// The invariant of every scheduler state: the calling task exists and is
    /// not deleted, and each unit of work ran at most once, only as its own
    /// task, and only after the scheduler gave it up.
    pub open spec fn wf(self) -> bool {
        &&& self.valid_id(self.current)
        &&& self.task(self.current).state != TaskState::Deleted
        &&& self.tasks.len() <= self.capacity
        &&& self.capacity < u32::MAX
        &&& forall|i: int|
            0 <= i < self.tasks.len() ==> {
                let t = #[trigger] self.tasks[i];
                &&& t.runs <= 1
                &&& t.runs == 1 ==> t.ran_on == i + 1 && !t.holds_work
                &&& t.state == TaskState::Deleted ==> !t.holds_work
            }
    }
}

} // verus!
