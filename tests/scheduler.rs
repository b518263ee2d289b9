use monotonic_clock::monotonic_stm32l0::{Duration, Instant};
use monotonic_clock::scheduler::{Busy, Pending, Release, Scheduler, Task};

fn tasks(priorities: &[u8]) -> Scheduler {
    Scheduler::new(&priorities.to_vec())
}

#[test]
fn new_set_is_idle() {
    let s = tasks(&[1, 4, 2]);
    assert_eq!(s.len(), 3);
    assert_eq!(s.task(1), Task { priority: 4, pending: None });
    assert_eq!(s.ceiling(), None);
    assert_eq!(s.next_ready(Instant::from_counts(0)), None);
}

#[test]
fn spawn_into_armed_slot_is_busy() {
    let mut s = tasks(&[1]);
    let now = Instant::from_counts(1000);
    let t2 = Instant::from_counts(5000);
    let t1 = Instant::from_counts(3000);
    let armed = Some(Pending { release: Release::At(t2), payload: 7 });
    assert_eq!(s.spawn_at(0, t2, 7), Ok(()));
    assert_eq!(s.spawn_at(0, t1, 8), Err(Busy(8)));
    assert_eq!(s.task(0).pending, armed);
    assert_eq!(s.spawn(0, 9), Err(Busy(9)));
    assert_eq!(s.spawn_after(0, now, Duration::from_ticks(10), 10), Err(Busy(10)));
    // a busy slot refuses before the target instant is computed
    assert_eq!(s.spawn_after(0, now, Duration::from_ticks(0xFFFF), 11), Err(Busy(11)));
    assert_eq!(s.task(0).pending, armed);
    // not due before t2
    assert_eq!(s.next_ready(now), None);
    assert_eq!(s.next_ready(t2), Some(0));
    assert_eq!(s.dispatch(t2), Some((0, 7)));
}

#[test]
fn higher_priority_runs_first_and_is_not_preempted() {
    // task 0: B, priority 1; task 1: A, priority 4
    let mut s = tasks(&[1, 4]);
    let now = Instant::from_counts(0);
    assert_eq!(s.spawn(0, 0), Ok(()));
    assert_eq!(s.spawn(1, 0), Ok(()));
    assert_eq!(s.dispatch(now), Some((1, 0)));
    assert_eq!(s.ceiling(), Some(4));
    // B may not start while A runs
    assert_eq!(s.dispatch(now), None);
    assert_eq!(s.complete(), 1);
    assert_eq!(s.dispatch(now), Some((0, 0)));
    assert_eq!(s.complete(), 0);
    assert_eq!(s.ceiling(), None);
}

#[test]
fn higher_priority_preempts_and_completes_first() {
    let mut s = tasks(&[1, 4]);
    let now = Instant::from_counts(0);
    assert_eq!(s.spawn(0, 3), Ok(()));
    assert_eq!(s.dispatch(now), Some((0, 3)));
    assert_eq!(s.spawn(1, 4), Ok(()));
    assert_eq!(s.dispatch(now), Some((1, 4)));
    assert_eq!(s.complete(), 1);
    assert_eq!(s.complete(), 0);
}

#[test]
fn equal_priorities_go_by_index() {
    let mut s = tasks(&[2, 3, 3]);
    let now = Instant::from_counts(10);
    assert_eq!(s.spawn(2, 20), Ok(()));
    assert_eq!(s.spawn(1, 10), Ok(()));
    assert_eq!(s.spawn(0, 0), Ok(()));
    assert_eq!(s.next_ready(now), Some(1));
    assert_eq!(s.dispatch(now), Some((1, 10)));
    // same priority: no preemption
    assert_eq!(s.dispatch(now), None);
    assert_eq!(s.complete(), 1);
    assert_eq!(s.dispatch(now), Some((2, 20)));
}

#[test]
fn rearming_while_running_is_accepted() {
    let mut s = tasks(&[1]);
    let now = Instant::from_counts(65000);
    assert_eq!(s.spawn(0, 0), Ok(()));
    assert_eq!(s.dispatch(now), Some((0, 0)));
    assert_eq!(s.spawn_after(0, now, Duration::from_ticks(1000), 1), Ok(()));
    assert_eq!(
        s.task(0).pending,
        Some(Pending { release: Release::At(Instant::from_counts(464)), payload: 1 })
    );
    assert_eq!(s.complete(), 0);
    // due only once the clock has wrapped past the target
    assert_eq!(s.dispatch(Instant::from_counts(65535)), None);
    assert_eq!(s.dispatch(Instant::from_counts(464)), Some((0, 1)));
    assert_eq!(s.task(0).pending, None);
}

#[test]
fn release_due_check() {
    let at = Instant::from_counts(100);
    assert!(Release::Now.is_due_at(Instant::from_counts(0)));
    assert!(!Release::At(at).is_due_at(Instant::from_counts(99)));
    assert!(Release::At(at).is_due_at(Instant::from_counts(100)));
    assert!(Release::At(at).is_due_at(Instant::from_counts(200)));
}

#[test]
fn arm_refuses_busy_slot() {
    let mut s = tasks(&[3]);
    assert_eq!(s.arm(0, Release::Now, 5), Ok(()));
    assert_eq!(s.arm(0, Release::At(Instant::from_counts(1)), 6), Err(Busy(6)));
    assert_eq!(s.task(0).pending, Some(Pending { release: Release::Now, payload: 5 }));
}
