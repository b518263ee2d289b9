//! Dispatch decisions for a fixed set of prioritised tasks.
//!
//! Each task has one pending slot: a spawn arms it, either to run at once or
//! at an instant of the monotonic clock, and a spawn into an armed slot is
//! refused as busy. Among the armed tasks that are due, the one of highest
//! priority runs first (the lowest index among equals), and only if its
//! priority is strictly above that of the task running now: tasks preempt,
//! never the other way round, and run to completion in stack order.
use crate::monotonic_stm32l0::{half_period, offset, Duration, Instant};
use core::cmp::Ordering;
use vstd::prelude::*;
use vstd::std_specs::ops::AddSpec;

verus! {

/// When an armed task is released.
#[derive(Clone, Copy, Debug, PartialEq, Eq, Structural)]
pub enum Release {
    /// As soon as the dispatcher gets to it.
    Now,
    /// Once the clock has reached the instant.
    At(Instant),
}

/// What a spawn put in a task's slot: when the task is released, and the
/// word it is handed when it starts.
#[derive(Clone, Copy, Debug, PartialEq, Eq, Structural)]
pub struct Pending {
    pub release: Release,
    pub payload: u32,
}

/// A task of the fixed set: its static priority and its pending slot.
#[derive(Clone, Copy, Debug, PartialEq, Eq, Structural)]
pub struct Task {
    pub priority: u8,
    pub pending: Option<Pending>,
}

/// The refusal of a spawn into a task slot that is already armed; it hands
/// the spawn's payload back.
#[derive(Clone, Copy, Debug, PartialEq, Eq, Structural)]
pub struct Busy(pub u32);

impl Release {
    /// Whether this release is due at `now`.
    pub fn is_due_at(&self, now: Instant) -> (r: bool)
        ensures
            r == is_due(*self, now),
    {
        match self {
            Release::Now => true,
            Release::At(at) => match now.cmp(at) {
                Ordering::Less => false,
                _ => true,
            },
        }
    }
}

/// Whether a release is due at `now`: at once, or once `now` is at or after
/// its instant (within half the counter's period).
pub open spec fn is_due(release: Release, now: Instant) -> bool {
    match release {
        Release::Now => true,
        Release::At(at) => offset(now@, at@) >= 0,
    }
}

/// Whether a task of priority `priority` may start while the running task
/// has priority `ceiling` (`None` when nothing runs).
pub open spec fn above(ceiling: Option<u8>, priority: u8) -> bool {
    match ceiling {
        None => true,
        Some(c) => priority > c,
    }
}

/// Whether task `i` is armed, due at `now`, and allowed to start.
pub open spec fn eligible(tasks: Seq<Task>, now: Instant, ceiling: Option<u8>, i: int) -> bool {
    &&& 0 <= i < tasks.len()
    &&& tasks[i].pending is Some
    &&& is_due(tasks[i].pending->0.release, now)
    &&& above(ceiling, tasks[i].priority)
}

/// `tasks` with the slot of task `i` armed with `release` and `payload`.
pub open spec fn armed(tasks: Seq<Task>, i: int, release: Release, payload: u32) -> Seq<Task> {
    tasks.update(
        i,
        (Task { priority: tasks[i].priority, pending: Some(Pending { release, payload }) }),
    )
}

/// Whether task `i` goes before task `j`: a higher priority, or the same
/// priority and an index not after `j`.
pub open spec fn goes_before(tasks: Seq<Task>, i: int, j: int) -> bool {
    tasks[i].priority > tasks[j].priority || (tasks[i].priority == tasks[j].priority && i <= j)
}

/// Whether task `i` is the one to start next.
pub open spec fn is_next(tasks: Seq<Task>, now: Instant, ceiling: Option<u8>, i: int) -> bool {
    &&& eligible(tasks, now, ceiling, i)
    &&& forall|j: int| eligible(tasks, now, ceiling, j) ==> goes_before(tasks, i, j)
}

/// The fixed task set, with the stack of the tasks that are running: each
/// one above has preempted the one below it.
pub struct Scheduler {
    tasks: Vec<Task>,
    running: Vec<usize>,
}

impl Scheduler {
    /// The tasks, by index.
    pub closed spec fn tasks(&self) -> Seq<Task> {
        self.tasks@
    }

    /// The running tasks, the one that runs now last.
    pub closed spec fn running(&self) -> Seq<usize> {
        self.running@
    }

    /// The priority of the task that runs now, if any.
    pub open spec fn ceiling_spec(&self) -> Option<u8> {
        if self.running().len() == 0 {
            None
        } else {
            Some(self.tasks()[self.running().last() as int].priority)
        }
    }

    /// The running tasks are tasks of the set, with priorities that rise
    /// strictly from the bottom of the stack to its top.
    pub open spec fn wf(&self) -> bool {
        &&& forall|k: int| 0 <= k < self.running().len() ==> self.running()[k] < self.tasks().len()
        &&& forall|k: int, l: int|
            0 <= k < l < self.running().len() ==> self.tasks()[self.running()[k] as int].priority
                < self.tasks()[self.running()[l] as int].priority
    }

    /// A task set with the given priorities, nothing armed and nothing running.
    pub fn new(priorities: &Vec<u8>) -> (r: Scheduler)
        ensures
            r.wf(),
            r.running().len() == 0,
            r.tasks().len() == priorities@.len(),
            forall|i: int|
                0 <= i < priorities@.len() ==> r.tasks()[i] == (Task {
                    priority: priorities@[i],
                    pending: None,
                }),
    {
        let mut tasks: Vec<Task> = Vec::new();
        let mut i: usize = 0;
        while i < priorities.len()
            invariant
                i <= priorities@.len(),
                tasks@.len() == i,
                forall|k: int|
                    0 <= k < i ==> tasks@[k] == (Task { priority: priorities@[k], pending: None }),
            decreases priorities@.len() - i,
        {
            tasks.push(Task { priority: priorities[i], pending: None });
            i += 1;
        }
        Scheduler { tasks, running: Vec::new() }
    }

    /// The number of tasks.
    pub fn len(&self) -> (r: usize)
        ensures
            r == self.tasks().len(),
    {
        self.tasks.len()
    }

    /// The task at `index`.
    pub fn task(&self, index: usize) -> (r: Task)
        requires
            index < self.tasks().len(),
        ensures
            r == self.tasks()[index as int],
    {
        self.tasks[index]
    }

    /// The priority of the task that runs now, if any.
    pub fn ceiling(&self) -> (r: Option<u8>)
        requires
            self.wf(),
        ensures
            r == self.ceiling_spec(),
    {
        if self.running.len() == 0 {
            None
        } else {
            Some(self.tasks[self.running[self.running.len() - 1]].priority)
        }
    }

    /// Arms the slot of `task` with `release` and `payload`, or refuses as
    /// busy where it is armed already, handing `payload` back; a busy slot
    /// keeps what it had.
    pub fn arm(&mut self, task: usize, release: Release, payload: u32) -> (r: Result<(), Busy>)
        requires
            task < old(self).tasks().len(),
        ensures
            final(self).wf() == old(self).wf(),
            final(self).running() == old(self).running(),
            old(self).tasks()[task as int].pending is Some ==> r == Err::<(), Busy>(Busy(payload))
                && final(self).tasks() == old(self).tasks(),
            old(self).tasks()[task as int].pending is None ==> r == Ok::<(), Busy>(())
                && final(self).tasks() == armed(old(self).tasks(), task as int, release, payload),
    {
        if self.tasks[task].pending.is_some() {
            Err(Busy(payload))
        } else {
            let priority = self.tasks[task].priority;
            self.tasks.set(task, Task { priority, pending: Some(Pending { release, payload }) });
            Ok(())
        }
    }

    /// Spawns `task` with `payload`, to run as soon as possible.
    pub fn spawn(&mut self, task: usize, payload: u32) -> (r: Result<(), Busy>)
        requires
            task < old(self).tasks().len(),
        ensures
            final(self).wf() == old(self).wf(),
            final(self).running() == old(self).running(),
            old(self).tasks()[task as int].pending is Some ==> r == Err::<(), Busy>(Busy(payload))
                && final(self).tasks() == old(self).tasks(),
            old(self).tasks()[task as int].pending is None ==> r == Ok::<(), Busy>(())
                && final(self).tasks() == armed(old(self).tasks(), task as int, Release::Now, payload),
    {
        self.arm(task, Release::Now, payload)
    }

    /// Spawns `task` with `payload`, to run once the clock reaches `at`.
    pub fn spawn_at(&mut self, task: usize, at: Instant, payload: u32) -> (r: Result<(), Busy>)
        requires
            task < old(self).tasks().len(),
        ensures
            final(self).wf() == old(self).wf(),
            final(self).running() == old(self).running(),
            old(self).tasks()[task as int].pending is Some ==> r == Err::<(), Busy>(Busy(payload))
                && final(self).tasks() == old(self).tasks(),
            old(self).tasks()[task as int].pending is None ==> r == Ok::<(), Busy>(())
                && final(self).tasks() == armed(old(self).tasks(), task as int, Release::At(at), payload),
    {
        self.arm(task, Release::At(at), payload)
    }

    /// Spawns `task` with `payload`, to run `after` from `now`. The
    /// instant is computed only where the slot is free, so a duration of half
    /// the counter's period or more is excluded only there.
    pub fn spawn_after(&mut self, task: usize, now: Instant, after: Duration, payload: u32) -> (r: Result<(), Busy>)
        requires
            task < old(self).tasks().len(),
            old(self).tasks()[task as int].pending is None ==> after@ < half_period(),
        ensures
            final(self).wf() == old(self).wf(),
            final(self).running() == old(self).running(),
            old(self).tasks()[task as int].pending is Some ==> r == Err::<(), Busy>(Busy(payload))
                && final(self).tasks() == old(self).tasks(),
            old(self).tasks()[task as int].pending is None ==> r == Ok::<(), Busy>(())
                && final(self).tasks() == armed(old(self).tasks(), task as int, Release::At(now.add_spec(after)), payload),
    {
        if self.tasks[task].pending.is_some() {
            Err(Busy(payload))
        } else {
            self.arm(task, Release::At(now + after), payload)
        }
    }

    /// The task to start next at `now`, if any: of the armed tasks that are
    /// due and of a priority above the running task's, the one of highest
    /// priority, the lowest index among equals.
    pub fn next_ready(&self, now: Instant) -> (r: Option<usize>)
        requires
            self.wf(),
        ensures
            r matches Some(i) ==> is_next(self.tasks(), now, self.ceiling_spec(), i as int),
            r is None ==> forall|j: int| !eligible(self.tasks(), now, self.ceiling_spec(), j),
    {
        let ceiling = self.ceiling();
        let mut best: Option<usize> = None;
        let mut i: usize = 0;
        while i < self.tasks.len()
            invariant
                self.wf(),
                ceiling == self.ceiling_spec(),
                i <= self.tasks@.len(),
                best matches Some(b) ==> b < i && eligible(self.tasks(), now, ceiling, b as int)
                    && forall|j: int|
                    0 <= j < i && eligible(self.tasks(), now, ceiling, j) ==> goes_before(
                        self.tasks(),
                        b as int,
                        j,
                    ),
                best is None ==> forall|j: int|
                    0 <= j < i ==> !eligible(self.tasks(), now, ceiling, j),
            decreases self.tasks@.len() - i,
        {
            let t = self.tasks[i];
            let ready = match t.pending {
                Some(p) => p.release.is_due_at(now) && match ceiling {
                    None => true,
                    Some(c) => t.priority > c,
                },
                None => false,
            };
            assert(ready == eligible(self.tasks(), now, ceiling, i as int));
            if ready {
                match best {
                    None => {
                        best = Some(i);
                    },
                    Some(b) => {
                        if t.priority > self.tasks[b].priority {
                            assert forall|j: int|
                                0 <= j <= i && eligible(self.tasks(), now, ceiling, j) implies goes_before(
                                self.tasks(),
                                i as int,
                                j,
                            ) by {
                                if j < i {
                                    assert(goes_before(self.tasks(), b as int, j));
                                }
                            }
                            best = Some(i);
                        }
                    },
                }
            }
            i += 1;
        }
        best
    }

    /// Starts the task to start next at `now`, if any, and returns it with
    /// the payload of its slot: the slot is disarmed and the task goes on top
    /// of the running stack.
    pub fn dispatch(&mut self, now: Instant) -> (r: Option<(usize, u32)>)
        requires
            old(self).wf(),
        ensures
            final(self).wf(),
            r matches Some((i, payload)) ==> is_next(old(self).tasks(), now, old(self).ceiling_spec(), i as int)
                && payload == old(self).tasks()[i as int].pending->0.payload
                && final(self).tasks() == old(self).tasks().update(
                i as int,
                (Task { priority: old(self).tasks()[i as int].priority, pending: None }),
            ) && final(self).running() == old(self).running().push(i),
            r is None ==> (forall|j: int| !eligible(old(self).tasks(), now, old(self).ceiling_spec(), j))
                && final(self).tasks() == old(self).tasks() && final(self).running() == old(
                self,
            ).running(),
    {
        let next = self.next_ready(now);
        match next {
            None => None,
            Some(i) => {
                let priority = self.tasks[i].priority;
                let payload = self.tasks[i].pending.unwrap().payload;
                proof {
                    let old_running = self.running@;
                    assert forall|k: int| 0 <= k < old_running.len() implies self.tasks@[old_running[k] as int].priority < priority by {
                        if k < old_running.len() - 1 {
                            assert(self.tasks@[old_running[k] as int].priority < self.tasks@[old_running[old_running.len() - 1] as int].priority);
                        }
                    }
                }
                self.tasks.set(i, Task { priority, pending: None });
                self.running.push(i);
                Some((i, payload))
            },
        }
    }

    /// Completes the task that runs now, taking it off the running stack, and
    /// returns it: the task it had preempted, if any, runs again.
    pub fn complete(&mut self) -> (r: usize)
        requires
            old(self).wf(),
            old(self).running().len() > 0,
        ensures
            final(self).wf(),
            r == old(self).running().last(),
            final(self).running() == old(self).running().drop_last(),
            final(self).tasks() == old(self).tasks(),
    {
        let r = self.running.pop().unwrap();
        r
    }
}

/// A task is never started ahead of a due task of higher priority, nor while
/// a task of higher priority runs: the task of lower priority never preempts
/// the other.
pub proof fn lemma_priority_order(s: Scheduler, now: Instant, a: usize, b: usize)
    requires
        s.wf(),
        a < s.tasks().len(),
        b < s.tasks().len(),
        s.tasks()[a as int].priority > s.tasks()[b as int].priority,
        eligible(s.tasks(), now, s.ceiling_spec(), a as int) || s.running().contains(a),
    ensures
        forall|i: int| is_next(s.tasks(), now, s.ceiling_spec(), i) ==> i != b,
        s.running().contains(a) ==> !eligible(s.tasks(), now, s.ceiling_spec(), b as int),
{
    if s.running().contains(a) {
        let k = choose|k: int| 0 <= k < s.running().len() && s.running()[k] == a;
        let top = s.running().len() - 1;
        if k < top {
            assert(s.tasks()[s.running()[k] as int].priority < s.tasks()[s.running()[top] as int].priority);
        }
        assert(s.ceiling_spec()->0 >= s.tasks()[a as int].priority);
    }
    assert forall|i: int| is_next(s.tasks(), now, s.ceiling_spec(), i) implies i != b by {
        if !s.running().contains(a) {
            assert(goes_before(s.tasks(), i, a as int));
        }
    }
}

/// Of two running tasks, the one of higher priority stands above the other on
/// the stack, so it completes first.
pub proof fn lemma_completion_order(s: Scheduler, k: int, l: int)
    requires
        s.wf(),
        0 <= k < s.running().len(),
        0 <= l < s.running().len(),
        s.tasks()[s.running()[k] as int].priority < s.tasks()[s.running()[l] as int].priority,
    ensures
        k < l,
{
    if l < k {
        assert(s.tasks()[s.running()[l] as int].priority < s.tasks()[s.running()[k] as int].priority);
    }
}

} // verus!
