use vstd::prelude::*;

use crate::model::{CreateRequest, Op, SchedModel};
use crate::state::code_of_state;

verus! {

/// The real-time scheduler that tasks run on, as the library consumes it.
///
/// `model` is what the scheduler knows; each request is stated as a step of
/// `SchedModel::apply`. The scheduler owns a task's unit of work from a
/// successful `create` on; a failed `create` hands it back unused.
pub trait Scheduler<F: FnOnce()> {
    /// The scheduler's own invariant.
    spec fn inv(&self) -> bool;

    /// What the scheduler knows of its tasks.
    spec fn model(&self) -> SchedModel;

    /// The invariant of the implementation gives the invariant of the model.
    proof fn lemma_inv_gives_wf(&self)
        requires
            self.inv(),
        ensures
            self.model().wf(),
    ;

    /// Creates a task that will run `work` once. Returns the new task's id, or
    /// hands `work` back where no task control block could be allocated. The
    /// name is copied; the caller's buffer may be freed afterwards.
    fn create(&mut self, work: F, weight: u32, stack: u32, name: &str) -> (r: Result<u32, F>)
        requires
            old(self).inv(),
            call_requires(work, ()),
        ensures
            final(self).inv(),
            final(self).model() == old(self).model().apply(
                Op::Create(CreateRequest { weight, stack, name: name@ }),
            ),
            r is Ok <==> old(self).model().has_room(),
            r matches Ok(id) ==> id == old(self).model().next_id(),
            r matches Err(w) ==> w == work,
    ;

    /// Suspends a task until it is resumed.
    fn suspend(&mut self, id: u32)
        requires
            old(self).inv(),
        ensures
            final(self).inv(),
            final(self).model() == old(self).model().apply(Op::Suspend(id)),
    ;

    /// Resumes a suspended task.
    fn resume(&mut self, id: u32)
        requires
            old(self).inv(),
        ensures
            final(self).inv(),
            final(self).model() == old(self).model().apply(Op::Resume(id)),
    ;

    /// Changes a task's priority weight.
    fn set_priority(&mut self, id: u32, weight: u32)
        requires
            old(self).inv(),
        ensures
            final(self).inv(),
            final(self).model() == old(self).model().apply(Op::SetPriority(id, weight)),
    ;

    /// The state code of a task.
    fn get_state(&self, id: u32) -> (r: u32)
        requires
            self.inv(),
        ensures
            r == code_of_state(self.model().state_of(id)),
    ;

    /// Deletes a task at once, dropping its unit of work if it has not run.
    /// A task cannot delete itself this way and go on.
    fn delete(&mut self, id: u32)
        requires
            old(self).inv(),
        ensures
            final(self).inv(),
            final(self).model() == old(self).model().apply(Op::Delete(id)),
    ;

    /// Waits until a task's unit of work has returned, then deletes the task.
    /// The model's run count of the task is bookkeeping: an implementation
    /// must raise it exactly when it calls the unit of work. A task cannot
    /// join itself.
    fn join(&mut self, id: u32)
        requires
            old(self).inv(),
        ensures
            final(self).inv(),
            final(self).model() == old(self).model().apply(Op::Join(id)),
    ;

    /// The id of the calling task.
    fn current(&self) -> (r: u32)
        requires
            self.inv(),
        ensures
            r == self.model().current,
    ;

    /// Suspends the calling task for `ms` milliseconds.
    fn delay(&mut self, ms: u32)
        requires
            old(self).inv(),
            old(self).model().clock + ms <= u64::MAX,
        ensures
            final(self).inv(),
            final(self).model() == old(self).model().apply(Op::Delay(ms)),
    ;

    /// Raises a task's notification value by one.
    fn notify(&mut self, id: u32)
        requires
            old(self).inv(),
        ensures
            final(self).inv(),
            final(self).model() == old(self).model().apply(Op::Notify(id)),
    ;

    /// Takes the calling task's notification value and clears the slot.
    /// Where none is pending, blocks until another task's notification
    /// arrives. The wait must end: a notification must be pending or on its
    /// way.
    fn notify_take(&mut self) -> (r: u32)
        requires
            old(self).inv(),
            old(self).model().has_pending() || old(self).model().wake_coming(),
        ensures
            final(self).inv(),
            final(self).model() == old(self).model().apply(Op::Take),
            r == old(self).model().taken(),
    ;
}

} // verus!
