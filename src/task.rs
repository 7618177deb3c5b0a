use vstd::prelude::*;

use crate::config::{priority_weight, stack_bytes, TaskPriority, TaskStackDepth};
use crate::error::SpawnError;
use crate::laws::{lemma_join_runs_once, lemma_take};
use crate::model::{CreateRequest, Op};
use crate::scheduler::Scheduler;
use crate::state::{lemma_state_code_round_trip, TaskState};

verus! {

/// Relies on std's `impl<T> From<T> for T`, documented to return its
/// argument unchanged: a weight passed as a plain `u32` is used as it is.
pub assume_specification<T>[ <T as core::convert::From<T>>::from ](a: T) -> (r: T)
    ensures
        r == a,
;

/// The name a task gets when none is given.
pub open spec fn default_name() -> Seq<char> {
    "<unnamed>"@
}

/// The configuration a task is spawned with, all defaults resolved.
pub struct TaskConfig {
    pub name: Seq<char>,
    pub priority: TaskPriority,
    pub stack_depth: TaskStackDepth,
}

impl TaskConfig {
    /// The creation request that this configuration makes.
    pub open spec fn request(self) -> CreateRequest {
        CreateRequest {
            weight: priority_weight(self.priority),
            stack: stack_bytes(self.stack_depth),
            name: self.name,
        }
    }
}

/// A reference to a task that the scheduler owns. Equal handles name the same
/// task.
#[derive(Debug, PartialEq, Eq, Structural)]
pub struct TaskHandle {
    task: u32,
}

impl Clone for TaskHandle {
    fn clone(&self) -> (r: Self)
        ensures
            r == *self,
    {
        TaskHandle { task: self.task }
    }
}

impl View for TaskHandle {
    type V = u32;

    closed spec fn view(&self) -> u32 {
        self.task
    }
}

/// Asks `sched` for a task that runs `function`, with the given settings. On
/// failure the unit of work comes back unused and is dropped here.
fn spawn_inner<F: FnOnce() + Send + 'static, S: Scheduler<F>>(
    sched: &mut S,
    function: F,
    priority: TaskPriority,
    stack_depth: TaskStackDepth,
    name: Option<&str>,
) -> (r: Result<TaskHandle, SpawnError>)
    requires
        old(sched).inv(),
        call_requires(function, ()),
    ensures
        final(sched).inv(),
        final(sched).model() == old(sched).model().apply(
            Op::Create(
                CreateRequest {
                    weight: priority_weight(priority),
                    stack: stack_bytes(stack_depth),
                    name: match name {
                        Some(n) => n@,
                        None => default_name(),
                    },
                },
            ),
        ),
        r is Ok <==> old(sched).model().has_room(),
        r matches Ok(h) ==> h@ == old(sched).model().next_id(),
        r matches Err(e) ==> e == SpawnError::TCBNotCreated,
{
    let label: &str = match name {
        Some(n) => n,
        None => "<unnamed>",
    };
    match sched.create(function, priority.weight(), stack_depth.bytes(), label) {
        Ok(task) => Ok(TaskHandle { task }),
        Err(_) => Err(SpawnError::TCBNotCreated),
    }
}

/// Spawns a task with the default settings. Creation must not fail: the
/// scheduler must have room for one more task.
pub fn spawn<F: FnOnce() + Send + 'static, S: Scheduler<F>>(sched: &mut S, f: F) -> (r:
    TaskHandle)
    requires
        old(sched).inv(),
        old(sched).model().has_room(),
        call_requires(f, ()),
    ensures
        final(sched).inv(),
        final(sched).model() == old(sched).model().apply(
            Op::Create(
                CreateRequest {
                    weight: priority_weight(TaskPriority::Default),
                    stack: stack_bytes(TaskStackDepth::Default),
                    name: default_name(),
                },
            ),
        ),
        r@ == old(sched).model().next_id(),
{
    match Builder::new().spawn(sched, f) {
        Ok(h) => h,
        Err(_) => vstd::pervasive::unreached(),
    }
}

impl TaskHandle {
    /// The scheduler's id of the task.
    pub fn id(&self) -> (r: u32)
        ensures
            r == self@,
    {
        self.task
    }

    /// Suspends the task. A task suspended while it holds a lock keeps it
    /// until it is resumed. The scheduler reports no failure.
    pub fn pause<F: FnOnce(), S: Scheduler<F>>(&self, sched: &mut S)
        requires
            old(sched).inv(),
        ensures
            final(sched).inv(),
            final(sched).model() == old(sched).model().apply(Op::Suspend(self@)),
    {
        sched.suspend(self.task);
    }

    /// Resumes the task. The scheduler reports no failure.
    pub fn unpause<F: FnOnce(), S: Scheduler<F>>(&self, sched: &mut S)
        requires
            old(sched).inv(),
        ensures
            final(sched).inv(),
            final(sched).model() == old(sched).model().apply(Op::Resume(self@)),
    {
        sched.resume(self.task);
    }

    /// Sets the task's priority weight. The scheduler reports no failure.
    pub fn set_priority<F: FnOnce(), S: Scheduler<F>, P: Into<u32>>(
        &self,
        sched: &mut S,
        priority: P,
    )
        requires
            old(sched).inv(),
        ensures
            final(sched).inv(),
            exists|w: u32|
                {
                    &&& final(sched).model() == old(sched).model().apply(
                        Op::SetPriority(self@, w),
                    )
                    &&& call_ensures(P::into, (priority,), w)
                },
    {
        let w: u32 = priority.into();
        sched.set_priority(self.task, w);
        assert(sched.model() == old(sched).model().apply(Op::SetPriority(self@, w)));
    }

    /// The task's state, fetched from the scheduler.
    pub fn state<F: FnOnce(), S: Scheduler<F>>(&self, sched: &S) -> (r: TaskState)
        requires
            sched.inv(),
        ensures
            r == sched.model().state_of(self@),
    {
        let code = sched.get_state(self.task);
        proof {
            lemma_state_code_round_trip(sched.model().state_of(self@));
        }
        TaskState::from_code(code)
    }

    /// Sends the task a notification, without acknowledgment.
    pub fn notify<F: FnOnce(), S: Scheduler<F>>(&self, sched: &mut S)
        requires
            old(sched).inv(),
        ensures
            final(sched).inv(),
            final(sched).model() == old(sched).model().apply(Op::Notify(self@)),
    {
        sched.notify(self.task);
    }

    /// Waits until the task's unit of work has returned, then deletes the task.
    /// The handle is consumed. A task cannot join itself: it would wait forever.
    pub fn join<F: FnOnce(), S: Scheduler<F>>(self, sched: &mut S)
        requires
            old(sched).inv(),
            self@ != old(sched).model().current,
        ensures
            final(sched).inv(),
            final(sched).model() == old(sched).model().apply(Op::Join(self@)),
            old(sched).model().valid_id(self@) ==> {
                &&& final(sched).model().task(self@).state == TaskState::Deleted
                &&& !final(sched).model().task(self@).holds_work
            },
            old(sched).model().valid_id(self@) && old(sched).model().task(self@).holds_work ==> {
                &&& final(sched).model().task(self@).runs == 1
                &&& final(sched).model().task(self@).ran_on == self@
            },
    {
        proof {
            old(sched).lemma_inv_gives_wf();
            if old(sched).model().valid_id(self@) && old(sched).model().task(self@).holds_work {
                lemma_join_runs_once(old(sched).model(), self@);
            }
        }
        sched.join(self.task);
    }

    /// Deletes the task at once, wherever it is in its work. What its unit of
    /// work captured is not released if it was running: memory may leak. A
    /// task that aborts itself does not return, so this call is for other tasks.
    pub fn abort<F: FnOnce(), S: Scheduler<F>>(self, sched: &mut S)
        requires
            old(sched).inv(),
            self@ != old(sched).model().current,
        ensures
            final(sched).inv(),
            final(sched).model() == old(sched).model().apply(Op::Delete(self@)),
            old(sched).model().valid_id(self@) ==> {
                &&& final(sched).model().task(self@).state == TaskState::Deleted
                &&& !final(sched).model().task(self@).holds_work
                &&& final(sched).model().task(self@).runs == old(sched).model().task(
                    self@,
                ).runs
            },
    {
        sched.delete(self.task);
    }
}

/// Settings for a new task; unset ones take their defaults at spawn time.
pub struct Builder<'a> {
    name: Option<&'a str>,
    priority: Option<TaskPriority>,
    stack_depth: Option<TaskStackDepth>,
}

impl<'a> View for Builder<'a> {
    type V = TaskConfig;

    closed spec fn view(&self) -> TaskConfig {
        TaskConfig {
            name: match self.name {
                Some(n) => n@,
                None => default_name(),
            },
            priority: match self.priority {
                Some(p) => p,
                None => TaskPriority::Default,
            },
            stack_depth: match self.stack_depth {
                Some(d) => d,
                None => TaskStackDepth::Default,
            },
        }
    }
}

impl<'a> Builder<'a> {
    /// A builder with every setting at its default.
    pub fn new() -> (r: Self)
        ensures
            r@ == (TaskConfig {
                name: default_name(),
                priority: TaskPriority::Default,
                stack_depth: TaskStackDepth::Default,
            }),
    {
        Builder { name: None, priority: None, stack_depth: None }
    }

    /// Names the task, which helps debugging.
    pub fn name(self, name: &'a str) -> (r: Self)
        ensures
            r@ == (TaskConfig { name: name@, ..self@ }),
    {
        Builder { name: Some(name), ..self }
    }

    /// Sets how much processor time the scheduler gives the task.
    pub fn priority(self, priority: TaskPriority) -> (r: Self)
        ensures
            r@ == (TaskConfig { priority, ..self@ }),
    {
        Builder { priority: Some(priority), ..self }
    }

    /// Sets how large the task's stack is.
    pub fn stack_depth(self, stack_depth: TaskStackDepth) -> (r: Self)
        ensures
            r@ == (TaskConfig { stack_depth, ..self@ }),
    {
        Builder { stack_depth: Some(stack_depth), ..self }
    }

    /// Spawns the task on `sched`. It fails, leaving no task behind and the
    /// unit of work uninvoked, exactly when the scheduler has no room.
    pub fn spawn<F: FnOnce() + Send + 'static, S: Scheduler<F>>(self, sched: &mut S, function: F) -> (r:
        Result<TaskHandle, SpawnError>)
        requires
            old(sched).inv(),
            call_requires(function, ()),
        ensures
            final(sched).inv(),
            final(sched).model() == old(sched).model().apply(Op::Create(self@.request())),
            r is Ok <==> old(sched).model().has_room(),
            r matches Ok(h) ==> h@ == old(sched).model().next_id(),
            r matches Err(e) ==> e == SpawnError::TCBNotCreated,
            r is Err ==> final(sched).model().tasks == old(sched).model().tasks,
    {
        let priority = match self.priority {
            Some(p) => p,
            None => TaskPriority::default(),
        };
        let stack_depth = match self.stack_depth {
            Some(d) => d,
            None => TaskStackDepth::default(),
        };
        spawn_inner(sched, function, priority, stack_depth, self.name)
    }
}

impl<'a> Default for Builder<'a> {
    fn default() -> (r: Self)
        ensures
            r@ == (TaskConfig {
                name: default_name(),
                priority: TaskPriority::Default,
                stack_depth: TaskStackDepth::Default,
            }),
    {
        Builder::new()
    }
}

/// Suspends the calling task for at least `millis` milliseconds.
pub fn sleep<F: FnOnce(), S: Scheduler<F>>(sched: &mut S, millis: u32)
    requires
        old(sched).inv(),
        old(sched).model().clock + millis <= u64::MAX,
    ensures
        final(sched).inv(),
        final(sched).model() == old(sched).model().apply(Op::Delay(millis)),
        final(sched).model().clock >= old(sched).model().clock + millis,
{
    sched.delay(millis);
}

/// The calling task.
pub fn current<F: FnOnce(), S: Scheduler<F>>(sched: &S) -> (r: TaskHandle)
    requires
        sched.inv(),
    ensures
        r@ == sched.model().current,
{
    TaskHandle { task: sched.current() }
}

/// Takes the calling task's notification value and clears the slot. Where
/// a value is pending it is returned at once; where none is, the caller blocks
/// until another task's notification arrives. The wait must end: a
/// notification must be pending or on its way. Only one task may consume a
/// given task's notifications.
pub fn get_notification<F: FnOnce(), S: Scheduler<F>>(sched: &mut S) -> (r: u32)
    requires
        old(sched).inv(),
        old(sched).model().has_pending() || old(sched).model().wake_coming(),
    ensures
        final(sched).inv(),
        final(sched).model() == old(sched).model().apply(Op::Take),
        r == old(sched).model().taken(),
        r > 0,
        old(sched).model().has_pending() ==> r == old(sched).model().task(
            old(sched).model().current,
        ).notes && final(sched).model().posted == old(sched).model().posted,
        !old(sched).model().has_pending() ==> final(sched).model().posted.len() < old(
            sched,
        ).model().posted.len(),
        final(sched).model().current == old(sched).model().current,
        final(sched).model().task(final(sched).model().current).notes == 0,
{
    proof {
        old(sched).lemma_inv_gives_wf();
        lemma_take(old(sched).model());
    }
    sched.notify_take()
}

} // verus!
