use std::sync::atomic::{AtomicUsize, Ordering};
use std::sync::Arc;

use pros_task::{
    current, get_notification, sleep, spawn, Builder, SimScheduler, SpawnError, TaskPriority,
    TaskStackDepth, TaskState,
};

type Work = Box<dyn FnOnce() + Send>;

fn counting_work(counter: &Arc<AtomicUsize>) -> Work {
    let c = Arc::clone(counter);
    Box::new(move || {
        c.fetch_add(1, Ordering::SeqCst);
    })
}

#[test]
fn spawn_noop_then_join_runs_once() {
    let mut sim: SimScheduler<Work> = SimScheduler::new(8);
    let flag = Arc::new(AtomicUsize::new(0));
    let h = spawn(&mut sim, counting_work(&flag));
    assert_eq!(flag.load(Ordering::SeqCst), 0);
    let id = h.id();
    h.join(&mut sim);
    assert_eq!(flag.load(Ordering::SeqCst), 1);
    assert_eq!(sim.runs(id), 1);
}

#[test]
fn join_leaves_task_deleted_and_does_not_rerun() {
    let mut sim: SimScheduler<Work> = SimScheduler::new(8);
    let flag = Arc::new(AtomicUsize::new(0));
    let h = Builder::new().spawn(&mut sim, counting_work(&flag)).unwrap();
    let other = h.clone();
    assert_eq!(other, h);
    h.join(&mut sim);
    assert_eq!(other.state(&sim), TaskState::Deleted);
    other.clone().join(&mut sim);
    other.unpause(&mut sim);
    assert_eq!(other.state(&sim), TaskState::Deleted);
    assert_eq!(flag.load(Ordering::SeqCst), 1);
    assert_eq!(sim.runs(other.id()), 1);
}

#[test]
fn builder_passes_low_settings_and_name() {
    let mut sim: SimScheduler<Work> = SimScheduler::new(8);
    let h = Builder::new()
        .priority(TaskPriority::Low)
        .stack_depth(TaskStackDepth::Low)
        .name("bg")
        .spawn(&mut sim, Box::new(|| {}))
        .unwrap();
    assert_eq!(sim.request_count(), 1);
    let req = sim.request(0);
    assert_eq!(req.weight, 1);
    assert_eq!(req.stack, 512);
    assert_eq!(req.name, "bg");
    assert_eq!(sim.weight(h.id()), 1);
    assert_eq!(sim.stack(h.id()), 512);
    assert_eq!(sim.name(h.id()), "bg");
}

#[test]
fn builder_defaults_and_high_priority() {
    let mut sim: SimScheduler<Work> = SimScheduler::new(8);
    let d = Builder::new().spawn(&mut sim, Box::new(|| {})).unwrap();
    assert_eq!(sim.weight(d.id()), 8);
    assert_eq!(sim.stack(d.id()), 8192);
    assert_eq!(sim.name(d.id()), "<unnamed>");
    let hi = Builder::default().priority(TaskPriority::High).spawn(&mut sim, Box::new(|| {})).unwrap();
    assert_eq!(sim.weight(hi.id()), 16);
    assert_eq!(sim.stack(hi.id()), 8192);
    assert_ne!(d, hi);
}

#[test]
fn priority_and_stack_values() {
    assert_eq!(TaskPriority::High.weight(), 16);
    assert_eq!(TaskPriority::Default.weight(), 8);
    assert_eq!(TaskPriority::Low.weight(), 1);
    assert_eq!(u32::from(TaskPriority::Low), 1);
    assert_eq!(TaskPriority::default(), TaskPriority::Default);
    assert_eq!(TaskStackDepth::Default.bytes(), 8192);
    assert_eq!(TaskStackDepth::Low.bytes(), 512);
    assert_eq!(TaskStackDepth::default(), TaskStackDepth::Default);
}

#[test]
fn creation_failure_returns_error_without_running() {
    let mut sim: SimScheduler<Work> = SimScheduler::new(1);
    let flag = Arc::new(AtomicUsize::new(0));
    let r = Builder::new().name("full").spawn(&mut sim, counting_work(&flag));
    assert_eq!(r, Err(SpawnError::TCBNotCreated));
    assert_eq!(flag.load(Ordering::SeqCst), 0);
    assert_eq!(Arc::strong_count(&flag), 1);
    assert_eq!(sim.request_count(), 1);
    assert_eq!(sim.request(0).name, "full");
    let me = current(&sim);
    assert_eq!(me.id(), 1);
}

#[test]
fn spawn_error_message() {
    assert_eq!(
        SpawnError::TCBNotCreated.message(),
        "The stack cannot be used as the TCB was not created."
    );
}

#[test]
fn abort_before_start_never_runs() {
    let mut sim: SimScheduler<Work> = SimScheduler::new(8);
    let flag = Arc::new(AtomicUsize::new(0));
    let h = spawn(&mut sim, counting_work(&flag));
    let later = h.clone();
    h.abort(&mut sim);
    assert_eq!(Arc::strong_count(&flag), 1);
    assert_eq!(later.state(&sim), TaskState::Deleted);
    later.clone().join(&mut sim);
    assert_eq!(flag.load(Ordering::SeqCst), 0);
    assert_eq!(sim.runs(later.id()), 0);
}

#[test]
fn pause_unpause_and_priority() {
    let mut sim: SimScheduler<Work> = SimScheduler::new(8);
    let h = spawn(&mut sim, Box::new(|| {}));
    assert_eq!(h.state(&sim), TaskState::Ready);
    h.pause(&mut sim);
    assert_eq!(h.state(&sim), TaskState::Suspended);
    h.unpause(&mut sim);
    assert_eq!(h.state(&sim), TaskState::Ready);
    h.set_priority(&mut sim, TaskPriority::High);
    assert_eq!(sim.weight(h.id()), 16);
    h.set_priority(&mut sim, 3u32);
    assert_eq!(sim.weight(h.id()), 3);
}

#[test]
fn state_codes() {
    assert_eq!(TaskState::from(0), TaskState::Running);
    assert_eq!(TaskState::from(1), TaskState::Ready);
    assert_eq!(TaskState::from(2), TaskState::Blocked);
    assert_eq!(TaskState::from(3), TaskState::Suspended);
    assert_eq!(TaskState::from(4), TaskState::Deleted);
    assert_eq!(TaskState::from(5), TaskState::Invalid);
    assert_eq!(TaskState::from(77), TaskState::Invalid);
    assert_eq!(TaskState::Suspended.code(), 3);
}

#[test]
fn current_task_is_running() {
    let sim: SimScheduler<Work> = SimScheduler::new(4);
    let me = current(&sim);
    assert_eq!(me.state(&sim), TaskState::Running);
}

#[test]
fn sleep_suspends_for_at_least_the_duration() {
    let mut sim: SimScheduler<Work> = SimScheduler::new(4);
    let before = sim.elapsed_ms();
    sleep(&mut sim, 10);
    assert!(sim.elapsed_ms() >= before + 10);
    assert_eq!(sim.elapsed_ms(), 10);
}

#[test]
fn notification_taken_once_then_blocks() {
    let mut sim: SimScheduler<Work> = SimScheduler::new(4);
    let me = current(&sim);
    me.notify(&mut sim);
    assert_eq!(get_notification(&mut sim), 1);
    assert_eq!(sim.elapsed_ms(), 0);
    assert_eq!(me.state(&sim), TaskState::Running);
    // Nothing is pending now: the second take waits for the next notification.
    sim.notify_after(me.id(), 5);
    assert_eq!(get_notification(&mut sim), 1);
    assert_eq!(sim.elapsed_ms(), 5);
    assert_eq!(me.state(&sim), TaskState::Running);
}

#[test]
fn notifications_accumulate_until_taken() {
    let mut sim: SimScheduler<Work> = SimScheduler::new(4);
    let me = current(&sim);
    me.notify(&mut sim);
    me.notify(&mut sim);
    me.notify(&mut sim);
    assert_eq!(get_notification(&mut sim), 3);
    assert_eq!(sim.elapsed_ms(), 0);
}

#[test]
fn waiting_take_sees_other_tasks_notifications_delivered_in_order() {
    let mut sim: SimScheduler<Work> = SimScheduler::new(4);
    let me = current(&sim);
    let other = spawn(&mut sim, Box::new(|| {}));
    other.pause(&mut sim);
    sim.notify_after(other.id(), 3);
    sim.notify_after(me.id(), 8);
    sim.notify_after(me.id(), 12);
    assert_eq!(get_notification(&mut sim), 1);
    assert_eq!(sim.elapsed_ms(), 8);
    assert_eq!(other.state(&sim), TaskState::Suspended);
    assert_eq!(get_notification(&mut sim), 1);
    assert_eq!(sim.elapsed_ms(), 12);
}
