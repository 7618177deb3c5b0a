use vstd::prelude::*;

use crate::model::{new_task, CreateRequest, Op, SchedModel};
use crate::state::TaskState;

verus! {

/// What notifying and waiting never change: the tasks that exist, the
/// caller, the capacity, and each task's work, runs, and whether it is deleted.
pub open spec fn keeps_work(m: SchedModel, n: SchedModel) -> bool {
    &&& n.tasks.len() == m.tasks.len()
    &&& n.current == m.current
    &&& n.capacity == m.capacity
    &&& forall|i: int|
        0 <= i < m.tasks.len() ==> {
            &&& (#[trigger] n.tasks[i]).runs == m.tasks[i].runs
            &&& n.tasks[i].holds_work == m.tasks[i].holds_work
            &&& n.tasks[i].ran_on == m.tasks[i].ran_on
            &&& (n.tasks[i].state == TaskState::Deleted) == (m.tasks[i].state
                == TaskState::Deleted)
        }
}

/// A state that keeps the work of a well-formed one is well formed.
pub proof fn lemma_keeps_work_wf(m: SchedModel, n: SchedModel)
    requires
        m.wf(),
        keeps_work(m, n),
    ensures
        n.wf(),
{
    assert forall|i: int| 0 <= i < n.tasks.len() implies {
        let t = #[trigger] n.tasks[i];
        &&& t.runs <= 1
        &&& t.runs == 1 ==> t.ran_on == i + 1 && !t.holds_work
        &&& t.state == TaskState::Deleted ==> !t.holds_work
    } by {
        assert(m.tasks[i].runs <= 1);
    }
    assert(m.tasks[m.current - 1].state != TaskState::Deleted);
}

/// Keeping the work is transitive.
pub proof fn lemma_keeps_work_trans(a: SchedModel, b: SchedModel, c: SchedModel)
    requires
        keeps_work(a, b),
        keeps_work(b, c),
    ensures
        keeps_work(a, c),
{
    assert forall|i: int| 0 <= i < a.tasks.len() implies {
        &&& (#[trigger] c.tasks[i]).runs == a.tasks[i].runs
        &&& c.tasks[i].holds_work == a.tasks[i].holds_work
        &&& c.tasks[i].ran_on == a.tasks[i].ran_on
        &&& (c.tasks[i].state == TaskState::Deleted) == (a.tasks[i].state
            == TaskState::Deleted)
    } by {
        assert(b.tasks[i].runs == a.tasks[i].runs);
    }
}

/// Notifying a task changes no task's work.
pub proof fn lemma_notified_keeps_work(m: SchedModel, id: u32)
    ensures
        keeps_work(m, m.notified(id)),
        m.notified(id).clock == m.clock,
        m.notified(id).posted == m.posted,
{
}

/// Waiting for a notification changes no task's work, and moves time and the
/// notifications on their way only forward.
pub proof fn lemma_woken_keeps_work(m: SchedModel)
    ensures
        keeps_work(m, m.woken()),
        m.woken().clock >= m.clock,
        m.woken().posted.len() <= m.posted.len(),
    decreases m.posted.len(),
{
    if !(m.has_pending() || m.posted.len() == 0) {
        let d = m.deliver_first();
        let p = m.posted[0];
        let clock = if p.at > m.clock {
            p.at
        } else {
            m.clock
        };
        let s = SchedModel { clock, posted: m.posted.drop_first(), ..m };
        lemma_notified_keeps_work(s, p.target);
        lemma_woken_keeps_work(d);
        lemma_keeps_work_trans(m, d, d.woken());
    }
}

/// A caller that has a notification pending, or one on its way, has one
/// pending once it has waited.
pub proof fn lemma_woken_has_pending(m: SchedModel)
    requires
        m.wf(),
        m.has_pending() || m.wake_coming(),
    ensures
        m.woken().has_pending(),
    decreases m.posted.len(),
{
    if !m.has_pending() {
        let k = choose|k: int| 0 <= k < m.posted.len() && #[trigger] m.posted[k].target == m.current;
        let d = m.deliver_first();
        let p = m.posted[0];
        let clock = if p.at > m.clock {
            p.at
        } else {
            m.clock
        };
        let s = SchedModel { clock, posted: m.posted.drop_first(), ..m };
        lemma_notified_keeps_work(s, p.target);
        lemma_keeps_work_wf(m, d);
        if k == 0 {
            assert(m.tasks[m.current - 1].state != TaskState::Deleted);
            assert(d.has_pending());
            assert(d.woken() == d);
        } else {
            assert(d.posted[k - 1].target == d.current);
            lemma_woken_has_pending(d);
        }
        assert(m.posted.len() > 0);
        assert(m.woken() == d.woken());
    }
}

/// The facts of a take: the value is never 0; a pending value is returned
/// as it is, at once; with none pending the caller waited until one came; and
/// the caller's slot is empty afterwards.
pub proof fn lemma_take(m: SchedModel)
    requires
        m.wf(),
        m.has_pending() || m.wake_coming(),
    ensures
        m.taken() > 0,
        m.has_pending() ==> m.taken() == m.task(m.current).notes && m.apply(Op::Take).posted
            == m.posted,
        !m.has_pending() ==> m.apply(Op::Take).posted.len() < m.posted.len(),
        m.apply(Op::Take).task(m.current).notes == 0,
        m.apply(Op::Take).current == m.current,
{
    lemma_woken_has_pending(m);
    lemma_woken_keeps_work(m);
    if !m.has_pending() {
        lemma_woken_keeps_work(m.deliver_first());
    }
}

/// Every request keeps the scheduler invariant.
pub proof fn lemma_apply_keeps_wf(m: SchedModel, op: Op)
    requires
        m.wf(),
    ensures
        m.apply(op).wf(),
{
    let n = m.apply(op);
    if op is Take {
        lemma_woken_keeps_work(m);
        lemma_keeps_work_wf(m, m.woken());
        assert(keeps_work(m.woken(), n));
        lemma_keeps_work_trans(m, m.woken(), n);
        lemma_keeps_work_wf(m, n);
    } else {
        assert forall|i: int| 0 <= i < n.tasks.len() implies {
            let t = #[trigger] n.tasks[i];
            &&& t.runs <= 1
            &&& t.runs == 1 ==> t.ran_on == i + 1 && !t.holds_work
            &&& t.state == TaskState::Deleted ==> !t.holds_work
        } by {
            if i < m.tasks.len() {
                assert(m.tasks[i].runs <= 1);
            }
        }
    }
}

/// Whatever series of requests follows, the invariant holds: no unit of work
/// is invoked more than once, and one that ran did so as its own task.
pub proof fn lemma_wf_forever(m: SchedModel, ops: Seq<Op>)
    requires
        m.wf(),
    ensures
        m.apply_all(ops).wf(),
    decreases ops.len(),
{
    if ops.len() > 0 {
        lemma_apply_keeps_wf(m, ops[0]);
        lemma_wf_forever(m.apply(ops[0]), ops.drop_first());
    }
}

/// A request never removes a task, and keeps a deleted task deleted with its
/// run count unchanged.
pub proof fn lemma_apply_keeps_deleted(m: SchedModel, id: u32, op: Op)
    requires
        m.wf(),
        m.valid_id(id),
        m.task(id).state == TaskState::Deleted,
    ensures
        m.apply(op).valid_id(id),
        m.apply(op).task(id).state == TaskState::Deleted,
        m.apply(op).task(id).runs == m.task(id).runs,
        !m.apply(op).task(id).holds_work,
{
    if op is Take {
        lemma_woken_keeps_work(m);
        assert(m.woken().tasks[id - 1].state == TaskState::Deleted);
    }
}

/// Once deleted (by a join or an abort), a task stays deleted, and its unit of
/// work is never invoked again, whatever requests follow.
pub proof fn lemma_deleted_is_final(m: SchedModel, id: u32, ops: Seq<Op>)
    requires
        m.wf(),
        m.valid_id(id),
        m.task(id).state == TaskState::Deleted,
    ensures
        m.apply_all(ops).valid_id(id),
        m.apply_all(ops).task(id).state == TaskState::Deleted,
        m.apply_all(ops).task(id).runs == m.task(id).runs,
    decreases ops.len(),
{
    if ops.len() > 0 {
        lemma_apply_keeps_deleted(m, id, ops[0]);
        lemma_apply_keeps_wf(m, ops[0]);
        lemma_deleted_is_final(m.apply(ops[0]), id, ops.drop_first());
    }
}

/// A task aborted before its unit of work began never runs it.
pub proof fn lemma_abort_before_start_never_runs(m: SchedModel, id: u32, ops: Seq<Op>)
    requires
        m.wf(),
        m.valid_id(id),
        id != m.current,
        m.task(id).runs == 0,
    ensures
        m.apply(Op::Delete(id)).apply_all(ops).task(id).runs == 0,
        m.apply(Op::Delete(id)).apply_all(ops).task(id).state == TaskState::Deleted,
{
    lemma_apply_keeps_wf(m, Op::Delete(id));
    lemma_deleted_is_final(m.apply(Op::Delete(id)), id, ops);
}

/// Joining a task whose unit of work is still pending runs it exactly once,
/// as that task, and leaves the task deleted.
pub proof fn lemma_join_runs_once(m: SchedModel, id: u32)
    requires
        m.wf(),
        m.valid_id(id),
        id != m.current,
        m.task(id).holds_work,
    ensures
        m.apply(Op::Join(id)).task(id).runs == 1,
        m.apply(Op::Join(id)).task(id).ran_on == id,
        m.apply(Op::Join(id)).task(id).state == TaskState::Deleted,
        !m.apply(Op::Join(id)).task(id).holds_work,
{
    assert(m.tasks[id - 1].runs <= 1);
}

/// A spawned task has not run when creation returns, and is not the caller.
pub proof fn lemma_created_task_is_fresh(m: SchedModel, req: CreateRequest)
    requires
        m.wf(),
        m.has_room(),
    ensures
        m.apply(Op::Create(req)).valid_id(m.next_id()),
        m.apply(Op::Create(req)).task(m.next_id()) == new_task(req),
        m.next_id() != m.current,
{
}

/// A creation request without room leaves every task as it was: no task is
/// added and no unit of work is held.
pub proof fn lemma_failed_create_adds_nothing(m: SchedModel, req: CreateRequest)
    requires
        !m.has_room(),
    ensures
        m.apply(Op::Create(req)).tasks == m.tasks,
        m.apply(Op::Create(req)).requests == m.requests.push(req),
{
}

/// No request removes a task.
pub proof fn lemma_apply_all_keeps_ids(m: SchedModel, ops: Seq<Op>)
    ensures
        m.apply_all(ops).tasks.len() >= m.tasks.len(),
    decreases ops.len(),
{
    if ops.len() > 0 {
        if ops[0] is Take {
            lemma_woken_keeps_work(m);
        }
        lemma_apply_all_keeps_ids(m.apply(ops[0]), ops.drop_first());
    }
}

/// The unit of work of a newly created task has not run when creation
/// returns. Whatever requests follow, it runs at most once, and only as that
/// task, never as the task that spawned it; and joining the task while the
/// scheduler still holds the work runs it, so that it has run exactly once.
pub proof fn lemma_spawned_work_runs_once(m: SchedModel, req: CreateRequest, ops: Seq<Op>)
    requires
        m.wf(),
        m.has_room(),
    ensures
        m.apply(Op::Create(req)).task(m.next_id()).runs == 0,
        ({
            let id = m.next_id();
            let later = m.apply(Op::Create(req)).apply_all(ops);
            &&& later.valid_id(id)
            &&& later.task(id).runs <= 1
            &&& later.task(id).runs == 1 ==> later.task(id).ran_on == id && id != m.current
            &&& later.task(id).holds_work && id != later.current ==> later.apply(
                Op::Join(id),
            ).task(id).runs == 1
        }),
{
    let id = m.next_id();
    let m1 = m.apply(Op::Create(req));
    lemma_apply_keeps_wf(m, Op::Create(req));
    lemma_apply_all_keeps_ids(m1, ops);
    lemma_wf_forever(m1, ops);
    let later = m1.apply_all(ops);
    assert(later.tasks[id - 1].runs <= 1);
    if later.task(id).holds_work && id != later.current {
        lemma_join_runs_once(later, id);
    }
}

} // verus!
