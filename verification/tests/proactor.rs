use uring_rt::proactor::{JoinHandle, Proactor, Step};
use uring_rt::spawn;

fn polled(step: Step<&'static str>) -> (u64, &'static str) {
    match step {
        Step::Poll(id, t) => (id, t),
        Step::Wait => panic!("expected a task, got Wait"),
        Step::Idle => panic!("expected a task, got Idle"),
    }
}

#[test]
fn empty_proactor_is_idle() {
    let mut p: Proactor<&'static str> = Proactor::new();
    assert!(p.is_empty());
    assert!(matches!(p.next_step(), Step::Idle));
}

#[test]
fn spawned_tasks_are_polled_in_order_then_the_loop_waits() {
    let mut p = Proactor::new();
    let a = spawn(&mut p, "a").id();
    let b = p.spawn("b");
    assert_eq!((a, b), (0, 1));
    assert_eq!(polled(p.next_step()), (0, "a"));
    p.put_back(0, "a");
    assert_eq!(polled(p.next_step()), (1, "b"));
    p.put_back(1, "b");
    assert!(matches!(p.next_step(), Step::Wait));
}

#[test]
fn finished_task_is_not_polled_again_and_the_loop_ends() {
    let mut p = Proactor::new();
    let a = p.spawn("a");
    assert_eq!(polled(p.next_step()), (a, "a"));
    // not put back: it finished
    p.wake(a);
    assert!(matches!(p.next_step(), Step::Idle));
    assert!(p.is_empty());
}

#[test]
fn task_woken_during_a_round_is_polled_in_the_next_one() {
    let mut p = Proactor::new();
    let a = p.spawn("a");
    let b = p.spawn("b");
    assert_eq!(polled(p.next_step()), (a, "a"));
    p.put_back(a, "a");
    p.wake(a);
    assert_eq!(polled(p.next_step()), (b, "b"));
    p.put_back(b, "b");
    assert!(matches!(p.next_step(), Step::Wait));
    assert_eq!(polled(p.next_step()), (a, "a"));
    p.put_back(a, "a");
    assert!(matches!(p.next_step(), Step::Wait));
}

#[test]
fn wakes_are_served_in_order_and_dead_ids_skipped() {
    let mut p = Proactor::new();
    let a = p.spawn("a");
    let b = p.spawn("b");
    let c = p.spawn("c");
    for _ in 0..3 {
        let (id, t) = polled(p.next_step());
        if id != b {
            p.put_back(id, t);
        }
    }
    assert!(matches!(p.next_step(), Step::Wait));
    p.wake_all(vec![c, b, a, 77]);
    assert_eq!(polled(p.next_step()).0, c);
    p.put_back(c, "c");
    assert_eq!(polled(p.next_step()).0, a);
    p.put_back(a, "a");
    assert!(matches!(p.next_step(), Step::Wait));
    assert!(p.was_issued(c));
    assert!(!p.was_issued(3));
    assert!(!p.ids_exhausted());
}

#[test]
fn spawning_inside_a_round_waits_for_the_next_round() {
    let mut p = Proactor::new();
    let a = p.spawn("a");
    assert_eq!(polled(p.next_step()), (a, "a"));
    let b = p.spawn("b");
    p.put_back(a, "a");
    assert!(matches!(p.next_step(), Step::Wait));
    assert_eq!(polled(p.next_step()), (b, "b"));
}

#[test]
fn joiner_is_woken_when_the_task_finishes() {
    let mut p = Proactor::new();
    let h = spawn(&mut p, "worker");
    let w = p.spawn("waiter");
    assert_eq!(polled(p.next_step()), (h.id(), "worker"));
    p.put_back(h.id(), "worker");
    assert_eq!(polled(p.next_step()), (w, "waiter"));
    assert!(!p.join(&h, w));
    p.put_back(w, "waiter");
    assert!(matches!(p.next_step(), Step::Wait));
    // the worker is woken, polled and finishes; the waiter is queued
    p.wake(h.id());
    assert_eq!(polled(p.next_step()), (h.id(), "worker"));
    assert!(!p.is_finished(h.id()));
    p.task_done(h.id());
    assert!(p.is_finished(h.id()));
    assert!(matches!(p.next_step(), Step::Wait));
    assert_eq!(polled(p.next_step()), (w, "waiter"));
    assert!(p.join(&h, w));
    p.task_done(w);
    assert!(matches!(p.next_step(), Step::Idle));
}

#[test]
fn joining_a_task_not_yet_polled_waits() {
    let mut p = Proactor::new();
    let h = spawn(&mut p, "a");
    assert!(!p.is_finished(h.id()));
    assert!(!p.join(&h, 9));
    assert!(!p.join(&JoinHandle::new(h.id()), 10));
    assert_eq!(polled(p.next_step()), (h.id(), "a"));
    assert!(p.is_polling(h.id()));
    p.task_done(h.id());
    assert!(!p.is_polling(h.id()));
    // 9 and 10 are queued in the order they asked; neither is a live task
    assert!(matches!(p.next_step(), Step::Idle));
    assert!(!p.is_finished(77));
}
