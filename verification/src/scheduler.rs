//! The cooperative task scheduler's state machine.
//!
//! It registers recurring and one-shot tasks and keeps each task's run
//! bookkeeping. The surrounding runtime drives it: before running a
//! task's unit of work it asks [`TaskScheduler::begin_run`], which
//! refuses to start a tick while the previous one of the same task is
//! still running — the tick is skipped, never queued — and refuses any
//! tick once the scheduler is stopped; after the work it reports the
//! result to [`TaskScheduler::finish_run`], which updates the
//! bookkeeping, counts a failure against only that task, and drops a
//! one-shot task so that it fires at most once.

use vstd::prelude::*;

verus! {

/// The longest accepted task interval or delay, in milliseconds: about
/// thirty years.
pub const MAX_INTERVAL_MS: i64 = 1_000_000_000_000;

/// The latest timestamp the scheduler accepts, a machine limit that
/// keeps `now + MAX_INTERVAL_MS` representable.
pub const MAX_TIMESTAMP: i64 = 4_000_000_000_000_000;

/// Whether a task fires repeatedly or once.
#[derive(Clone, Copy, Debug, PartialEq, Eq, Structural)]
pub enum TaskKind {
    Recurring,
    Once,
}

/// One registered task: identity, cadence and run bookkeeping. The
/// unit of work itself lives with the runtime that drives the
/// scheduler.
#[derive(Debug)]
pub struct ScheduledTask {
    pub id: u64,
    pub name: String,
    pub kind: TaskKind,
    /// The firing interval of a recurring task, or the delay of a
    /// one-shot task, in milliseconds.
    pub interval_ms: i64,
    /// Set while one of the task's ticks is in flight.
    pub is_running: bool,
    pub last_run: Option<i64>,
    pub next_run: i64,
    pub run_count: u64,
    pub error_count: u64,
}

impl ScheduledTask {
    /// The cadence is within the accepted bounds.
    pub open spec fn wf(self) -> bool {
        0 <= self.interval_ms <= MAX_INTERVAL_MS
    }
}

impl Clone for ScheduledTask {
    /// An exact copy.
    fn clone(&self) -> (res: Self)
        ensures
            res == *self,
    {
        ScheduledTask {
            id: self.id,
            name: self.name.clone(),
            kind: self.kind,
            interval_ms: self.interval_ms,
            is_running: self.is_running,
            last_run: self.last_run,
            next_run: self.next_run,
            run_count: self.run_count,
            error_count: self.error_count,
        }
    }
}

/// A read-only snapshot of one task's bookkeeping.
#[derive(Debug)]
pub struct TaskStatus {
    pub id: u64,
    pub name: String,
    pub kind: TaskKind,
    pub interval_ms: i64,
    pub is_running: bool,
    pub last_run: Option<i64>,
    pub next_run: i64,
    pub run_count: u64,
    pub error_count: u64,
}

/// The snapshot a task yields.
pub open spec fn spec_status_of(t: ScheduledTask) -> TaskStatus {
    TaskStatus {
        id: t.id,
        name: t.name,
        kind: t.kind,
        interval_ms: t.interval_ms,
        is_running: t.is_running,
        last_run: t.last_run,
        next_run: t.next_run,
        run_count: t.run_count,
        error_count: t.error_count,
    }
}

/// What `begin_run` decided for a tick.
#[derive(Clone, Copy, Debug, PartialEq, Eq, Structural)]
pub enum TickOutcome {
    /// The tick may proceed; the task is flagged as in flight.
    Started,
    /// The task's previous tick has not finished: this one is
    /// skipped, not queued.
    SkippedOverlap,
    /// The scheduler is stopped: nothing runs.
    SkippedStopped,
    /// No task is registered under this id.
    UnknownTask,
}

/// What `begin_run` decides given the scheduler's running flag and the
/// task found under the id.
pub open spec fn spec_tick(sched_running: bool, task: Option<ScheduledTask>) -> TickOutcome {
    if !sched_running {
        TickOutcome::SkippedStopped
    } else {
        match task {
            None => TickOutcome::UnknownTask,
            Some(t) => if t.is_running {
                TickOutcome::SkippedOverlap
            } else {
                TickOutcome::Started
            },
        }
    }
}

/// Tick non-overlap: while a tick of a task is running, `begin_run`
/// never starts another tick of the same task — and a started tick
/// marks the task running, so until `finish_run` clears the mark every
/// further attempt on that task is skipped, whether or not the
/// scheduler keeps running.
pub proof fn lemma_tick_non_overlap(sched_running: bool, t: ScheduledTask)
    ensures
        t.is_running ==> spec_tick(sched_running, Some(t)) != TickOutcome::Started,
        spec_tick(sched_running, Some(t)) == TickOutcome::Started ==> {
            let running = ScheduledTask { is_running: true, ..t };
            forall|again: bool| spec_tick(again, Some(running)) != TickOutcome::Started
        },
{
}

/// Whether some registered task with this id is due at `now`:
/// registered, not running, and past its next due time.
pub open spec fn spec_is_due(s: Seq<ScheduledTask>, id: u64, now: i64) -> bool {
    exists|i: int|
        0 <= i < s.len() && s[i].id == id && !(#[trigger] s[i]).is_running && s[i].next_run <= now
}

/// The scheduler: the registered tasks and the global running flag.
pub struct TaskScheduler {
    tasks: Vec<ScheduledTask>,
    is_running: bool,
}

impl TaskScheduler {
    /// The registered tasks, in registration order.
    pub closed spec fn view(&self) -> Seq<ScheduledTask> {
        self.tasks@
    }

    /// Whether the scheduler is running.
    pub closed spec fn running(&self) -> bool {
        self.is_running
    }

    /// Task ids are unique and every task is well formed.
    pub open spec fn wf(&self) -> bool {
        &&& forall|i: int, j: int|
            0 <= i < self@.len() && 0 <= j < self@.len() && i != j ==> self@[i].id != self@[j].id
        &&& forall|i: int| 0 <= i < self@.len() ==> (#[trigger] self@[i]).wf()
    }

    /// Whether some registered task has this id.
    pub open spec fn spec_has_task(&self, id: u64) -> bool {
        exists|i: int| 0 <= i < self@.len() && self@[i].id == id
    }

    /// A stopped scheduler with no tasks.
    pub fn new() -> (r: Self)
        ensures
            r@ == Seq::<ScheduledTask>::empty(),
            !r.running(),
            r.wf(),
    {
        TaskScheduler { tasks: Vec::new(), is_running: false }
    }

    /// The position of the task with this id, if one is registered.
    fn find(&self, id: u64) -> (r: Option<usize>)
        ensures
            match r {
                Some(i) => i < self@.len() && self@[i as int].id == id,
                None => !self.spec_has_task(id),
            },
    {
        let mut i: usize = 0;
        while i < self.tasks.len()
            invariant
                i <= self@.len(),
                forall|j: int| 0 <= j < i ==> self@[j].id != id,
            decreases self@.len() - i,
        {
            if self.tasks[i].id == id {
                return Some(i);
            }
            i = i + 1;
        }
        None
    }

    /// Marks the scheduler running; registered tasks begin to fire on
    /// their next due time.
    pub fn start(&mut self)
        requires
            old(self).wf(),
        ensures
            final(self).wf(),
            final(self).running(),
            final(self)@ == old(self)@,
    {
        self.is_running = true;
    }

    /// Stops the scheduler: no further tick is honored, and every
    /// in-flight tick's running mark is cleared — its execution context
    /// is aborted by the runtime.
    pub fn stop(&mut self)
        requires
            old(self).wf(),
        ensures
            final(self).wf(),
            !final(self).running(),
            final(self)@.len() == old(self)@.len(),
            forall|i: int|
                0 <= i < old(self)@.len() ==> final(self)@[i] == (ScheduledTask {
                    is_running: false,
                    ..old(self)@[i]
                }),
    {
        self.is_running = false;
        let mut i: usize = 0;
        while i < self.tasks.len()
            invariant
                !self.running(),
                i <= self.tasks@.len(),
                self.tasks@.len() == old(self)@.len(),
                forall|j: int|
                    0 <= j < i ==> self.tasks@[j] == (ScheduledTask {
                        is_running: false,
                        ..old(self)@[j]
                    }),
                forall|j: int| i <= j < self.tasks@.len() ==> self.tasks@[j] == old(self)@[j],
            decreases self.tasks@.len() - i,
        {
            let cleared = ScheduledTask { is_running: false, ..self.tasks[i].clone() };
            self.tasks[i] = cleared;
            i = i + 1;
        }
    }

    /// Registers a recurring task firing every `interval_ms`,
    /// first due at `now + interval_ms`. Registering an id again
    /// replaces the prior registration in place.
    pub fn schedule_recurring(&mut self, id: u64, name: String, interval_ms: i64, now: i64) -> (r:
        Result<(), crate::errors::ApiError>)
        requires
            old(self).wf(),
            0 <= now <= MAX_TIMESTAMP,
        ensures
            final(self).wf(),
            final(self).running() == old(self).running(),
            !(0 <= interval_ms <= MAX_INTERVAL_MS) ==> (r matches Err(e) && e is Validation)
                && final(self)@ == old(self)@,
            0 <= interval_ms <= MAX_INTERVAL_MS ==> r is Ok && {
                let task = ScheduledTask {
                    id,
                    name,
                    kind: TaskKind::Recurring,
                    interval_ms,
                    is_running: false,
                    last_run: None,
                    next_run: (now + interval_ms) as i64,
                    run_count: 0,
                    error_count: 0,
                };
                if old(self).spec_has_task(id) {
                    exists|i: int|
                        0 <= i < old(self)@.len() && old(self)@[i].id == id && final(self)@ == old(self)@.update(i, task)
                } else {
                    final(self)@ == old(self)@.push(task)
                }
            },
    {
        self.register(id, name, TaskKind::Recurring, interval_ms, now)
    }

    /// Registers a one-shot task due once at `now + delay_ms`; it fires
    /// at most once, and not at all if the scheduler stops or the task
    /// is cancelled first. Registering an id again replaces the prior
    /// registration in place.
    pub fn schedule_once(&mut self, id: u64, name: String, delay_ms: i64, now: i64) -> (r: Result<
        (),
        crate::errors::ApiError,
    >)
        requires
            old(self).wf(),
            0 <= now <= MAX_TIMESTAMP,
        ensures
            final(self).wf(),
            final(self).running() == old(self).running(),
            !(0 <= delay_ms <= MAX_INTERVAL_MS) ==> (r matches Err(e) && e is Validation) && final(self)@ == old(self)@,
            0 <= delay_ms <= MAX_INTERVAL_MS ==> r is Ok && {
                let task = ScheduledTask {
                    id,
                    name,
                    kind: TaskKind::Once,
                    interval_ms: delay_ms,
                    is_running: false,
                    last_run: None,
                    next_run: (now + delay_ms) as i64,
                    run_count: 0,
                    error_count: 0,
                };
                if old(self).spec_has_task(id) {
                    exists|i: int|
                        0 <= i < old(self)@.len() && old(self)@[i].id == id && final(self)@ == old(self)@.update(i, task)
                } else {
                    final(self)@ == old(self)@.push(task)
                }
            },
    {
        self.register(id, name, TaskKind::Once, delay_ms, now)
    }

    fn register(&mut self, id: u64, name: String, kind: TaskKind, interval_ms: i64, now: i64) -> (r:
        Result<(), crate::errors::ApiError>)
        requires
            old(self).wf(),
            0 <= now <= MAX_TIMESTAMP,
        ensures
            final(self).wf(),
            final(self).running() == old(self).running(),
            !(0 <= interval_ms <= MAX_INTERVAL_MS) ==> (r matches Err(e) && e is Validation)
                && final(self)@ == old(self)@,
            0 <= interval_ms <= MAX_INTERVAL_MS ==> r is Ok && {
                let task = ScheduledTask {
                    id,
                    name,
                    kind,
                    interval_ms,
                    is_running: false,
                    last_run: None,
                    next_run: (now + interval_ms) as i64,
                    run_count: 0,
                    error_count: 0,
                };
                if old(self).spec_has_task(id) {
                    exists|i: int|
                        0 <= i < old(self)@.len() && old(self)@[i].id == id && final(self)@ == old(self)@.update(i, task)
                } else {
                    final(self)@ == old(self)@.push(task)
                }
            },
    {
        if interval_ms < 0 || interval_ms > MAX_INTERVAL_MS {
            return Err(
                crate::errors::ApiError::Validation(
                    "task interval is out of bounds".to_owned(),
                ),
            );
        }
        let task = ScheduledTask {
            id,
            name,
            kind,
            interval_ms,
            is_running: false,
            last_run: None,
            next_run: now + interval_ms,
            run_count: 0,
            error_count: 0,
        };
        match self.find(id) {
            Some(i) => {
                self.tasks[i] = task;
            },
            None => {
                self.tasks.push(task);
            },
        }
        Ok(())
    }

    /// Removes a pending or recurring task; the runtime aborts its
    /// execution context if one is in flight. Cancelling an unknown id
    /// changes nothing.
    pub fn cancel_task(&mut self, id: u64) -> (was_present: bool)
        requires
            old(self).wf(),
        ensures
            final(self).wf(),
            final(self).running() == old(self).running(),
            was_present == old(self).spec_has_task(id),
            !was_present ==> final(self)@ == old(self)@,
            was_present ==> exists|i: int|
                0 <= i < old(self)@.len() && old(self)@[i].id == id && final(self)@ == old(self)@.remove(i),
            !final(self).spec_has_task(id),
    {
        let pos = match self.find(id) {
            Some(i) => i,
            None => {
                return false;
            },
        };
        let ghost s0 = self@;
        self.tasks.remove(pos);
        proof {
            s0.remove_ensures(pos as int);
            assert forall|j: int| 0 <= j < self@.len() implies self@[j].id != id by {
                if j < pos {
                    assert(self@[j] == s0[j]);
                } else {
                    assert(self@[j] == s0[j + 1]);
                }
            }
            assert forall|j: int, k: int|
                0 <= j < self@.len() && 0 <= k < self@.len() && j != k implies self@[j].id
                != self@[k].id by {
                let oj: int = if j < pos as int {
                    j
                } else {
                    j + 1
                };
                let ok: int = if k < pos as int {
                    k
                } else {
                    k + 1
                };
                assert(self@[j] == s0[oj]);
                assert(self@[k] == s0[ok]);
            }
        }
        true
    }

    /// Asks to start a tick of the task: refused while the scheduler is
    /// stopped, unknown for an unregistered id, and skipped — never
    /// queued — while the task's previous tick is still running.
    /// Exactly a `Started` answer marks the task running; everything
    /// else leaves the scheduler untouched.
    pub fn begin_run(&mut self, id: u64) -> (r: TickOutcome)
        requires
            old(self).wf(),
        ensures
            final(self).wf(),
            final(self).running() == old(self).running(),
            !old(self).spec_has_task(id) ==> r == spec_tick(old(self).running(), None),
            forall|i: int|
                0 <= i < old(self)@.len() && (#[trigger] old(self)@[i]).id == id ==> r == spec_tick(
                    old(self).running(),
                    Some(old(self)@[i]),
                ),
            r != TickOutcome::Started ==> final(self)@ == old(self)@,
            r == TickOutcome::Started ==> exists|i: int|
                0 <= i < old(self)@.len() && old(self)@[i].id == id && !old(self)@[i].is_running
                    && final(self)@ == old(self)@.update(
                    i,
                    ScheduledTask { is_running: true, ..old(self)@[i] },
                ),
    {
        if !self.is_running {
            return TickOutcome::SkippedStopped;
        }
        let pos = match self.find(id) {
            Some(i) => i,
            None => {
                return TickOutcome::UnknownTask;
            },
        };
        if self.tasks[pos].is_running {
            return TickOutcome::SkippedOverlap;
        }
        let started = ScheduledTask { is_running: true, ..self.tasks[pos].clone() };
        self.tasks[pos] = started;
        TickOutcome::Started
    }

    /// Reports a finished tick: clears the in-flight flag, updates the
    /// bookkeeping, counts a failure against that task alone, and either
    /// schedules the next recurrence or, for a one-shot task, drops it
    /// so that it fires at most once. Returns whether the task was
    /// still registered.
    pub fn finish_run(&mut self, id: u64, now: i64, success: bool) -> (found: bool)
        requires
            old(self).wf(),
            0 <= now <= MAX_TIMESTAMP,
        ensures
            final(self).wf(),
            final(self).running() == old(self).running(),
            found == old(self).spec_has_task(id),
            !found ==> final(self)@ == old(self)@,
            found ==> exists|i: int|
                #![trigger old(self)@[i]]
                {
                    let t = old(self)@[i];
                    let done = ScheduledTask {
                        is_running: false,
                        last_run: Some(now),
                        next_run: (now + t.interval_ms) as i64,
                        run_count: if t.run_count < u64::MAX {
                            (t.run_count + 1) as u64
                        } else {
                            u64::MAX
                        },
                        error_count: if success {
                            t.error_count
                        } else if t.error_count < u64::MAX {
                            (t.error_count + 1) as u64
                        } else {
                            u64::MAX
                        },
                        ..t
                    };
                    &&& 0 <= i < old(self)@.len()
                    &&& t.id == id
                    &&& (t.kind is Once ==> final(self)@ == old(self)@.remove(i))
                    &&& (t.kind is Recurring ==> final(self)@ == old(self)@.update(i, done))
                },
    {
        let pos = match self.find(id) {
            Some(i) => i,
            None => {
                return false;
            },
        };
        let t = self.tasks[pos].clone();
        match t.kind {
            TaskKind::Once => {
                let ghost s0 = self@;
                self.tasks.remove(pos);
                proof {
                    s0.remove_ensures(pos as int);
                    assert forall|j: int, k: int|
                        0 <= j < self@.len() && 0 <= k < self@.len() && j != k implies self@[j].id
                        != self@[k].id by {
                        let oj: int = if j < pos as int {
                            j
                        } else {
                            j + 1
                        };
                        let ok: int = if k < pos as int {
                            k
                        } else {
                            k + 1
                        };
                        assert(self@[j] == s0[oj]);
                        assert(self@[k] == s0[ok]);
                    }
                }
            },
            TaskKind::Recurring => {
                let run_count = if t.run_count < u64::MAX {
                    t.run_count + 1
                } else {
                    u64::MAX
                };
                let error_count = if success {
                    t.error_count
                } else if t.error_count < u64::MAX {
                    t.error_count + 1
                } else {
                    u64::MAX
                };
                let done = ScheduledTask {
                    is_running: false,
                    last_run: Some(now),
                    next_run: now + t.interval_ms,
                    run_count,
                    error_count,
                    ..t
                };
                self.tasks[pos] = done;
            },
        }
        true
    }

    /// The ids of the tasks due at `now`: registered, not running, and
    /// past their next due time. Meaningful only while the scheduler is
    /// running; the runtime passes each returned id to `begin_run`.
    pub fn due_tasks(&self, now: i64) -> (r: Vec<u64>)
        requires
            self.wf(),
        ensures
            forall|k: int| 0 <= k < r@.len() ==> spec_is_due(self@, #[trigger] r@[k], now),
            forall|i: int|
                0 <= i < self@.len() && !(#[trigger] self@[i]).is_running && self@[i].next_run
                    <= now ==> r@.contains(self@[i].id),
    {
        let mut r: Vec<u64> = Vec::new();
        let mut i: usize = 0;
        while i < self.tasks.len()
            invariant
                self.wf(),
                i <= self@.len(),
                forall|k: int| 0 <= k < r@.len() ==> spec_is_due(self@, #[trigger] r@[k], now),
                forall|j: int|
                    0 <= j < i && !(#[trigger] self@[j]).is_running && self@[j].next_run <= now
                        ==> r@.contains(self@[j].id),
            decreases self@.len() - i,
        {
            let ghost r0 = r@;
            if !self.tasks[i].is_running && self.tasks[i].next_run <= now {
                r.push(self.tasks[i].id);
                proof {
                    assert(r@[r@.len() - 1] == self@[i as int].id);
                    assert(spec_is_due(self@, self@[i as int].id, now));
                }
            }
            proof {
                assert forall|k: int| 0 <= k < r@.len() implies spec_is_due(
                    self@,
                    #[trigger] r@[k],
                    now,
                ) by {
                    if k < r0.len() {
                        assert(r@[k] == r0[k]);
                    }
                }
                assert forall|x: u64| r0.contains(x) implies r@.contains(x) by {
                    let k = choose|k: int| 0 <= k < r0.len() && r0[k] == x;
                    assert(r@[k] == x);
                };
            }
            i = i + 1;
        }
        r
    }

    /// A snapshot of one task's bookkeeping.
    pub fn get_task_status(&self, id: u64) -> (r: Option<TaskStatus>)
        requires
            self.wf(),
        ensures
            match r {
                Some(st) => exists|i: int|
                    0 <= i < self@.len() && self@[i].id == id && st == spec_status_of(self@[i]),
                None => !self.spec_has_task(id),
            },
    {
        let pos = match self.find(id) {
            Some(i) => i,
            None => {
                return None;
            },
        };
        let t = &self.tasks[pos];
        Some(
            TaskStatus {
                id: t.id,
                name: t.name.clone(),
                kind: t.kind,
                interval_ms: t.interval_ms,
                is_running: t.is_running,
                last_run: t.last_run,
                next_run: t.next_run,
                run_count: t.run_count,
                error_count: t.error_count,
            },
        )
    }

    /// Snapshots of every task's bookkeeping, in registration order.
    pub fn get_all_task_statuses(&self) -> (r: Vec<TaskStatus>)
        requires
            self.wf(),
        ensures
            r@.len() == self@.len(),
            forall|i: int| 0 <= i < r@.len() ==> r@[i] == spec_status_of(#[trigger] self@[i]),
    {
        let mut r: Vec<TaskStatus> = Vec::new();
        let mut i: usize = 0;
        while i < self.tasks.len()
            invariant
                i <= self@.len(),
                r@.len() == i,
                forall|j: int| 0 <= j < i ==> r@[j] == spec_status_of(#[trigger] self@[j]),
            decreases self@.len() - i,
        {
            let t = &self.tasks[i];
            r.push(
                TaskStatus {
                    id: t.id,
                    name: t.name.clone(),
                    kind: t.kind,
                    interval_ms: t.interval_ms,
                    is_running: t.is_running,
                    last_run: t.last_run,
                    next_run: t.next_run,
                    run_count: t.run_count,
                    error_count: t.error_count,
                },
            );
            i = i + 1;
        }
        r
    }
}

} // verus!
