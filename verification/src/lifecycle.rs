//! The task lifecycle manager. It owns every spawned background task,
//! distinguishes essential tasks from best-effort ones, and turns the
//! termination of any essential task — success or failure — into a full
//! service shutdown that cancels everything still outstanding. Best-effort
//! terminations are recorded and ignored.

use vstd::prelude::*;

verus! {

/// How a task's termination is treated.
#[derive(Clone, Copy, Debug, PartialEq, Eq, Structural)]
pub enum TaskClass {
    /// Its termination tears the whole service down.
    Essential,
    /// Its termination is recorded and ignored.
    BestEffort,
}

/// Where a task stands.
#[derive(Clone, Copy, Debug, PartialEq, Eq, Structural)]
pub enum TaskStatus {
    Running,
    Finished,
    Failed,
    Cancelled,
}

/// One tracked task.
#[derive(Clone, Copy, Debug, PartialEq, Eq, Structural)]
pub struct TaskRecord {
    pub class: TaskClass,
    pub status: TaskStatus,
}

/// Why the service shut down; surfaced as the final status.
#[derive(Clone, Copy, Debug, PartialEq, Eq, Structural)]
pub enum ShutdownReason {
    /// An essential task ended on its own.
    EssentialTaskFinished { task: usize },
    /// An essential task failed.
    EssentialTaskFailed { task: usize },
}

/// The lifecycle manager: the tracked tasks, whether the service is shut
/// down, and why.
#[derive(Debug)]
pub struct LifecycleManager {
    pub tasks: Vec<TaskRecord>,
    pub shutdown: bool,
    pub reason: Option<ShutdownReason>,
}

impl LifecycleManager {
    /// A shutdown manager always carries its reason, and a running one none.
    pub open spec fn wf(self) -> bool {
        self.shutdown <==> self.reason is Some
    }

    /// A fresh manager: nothing tracked, running.
    pub fn new() -> (r: LifecycleManager)
        ensures
            r.wf(),
            !r.shutdown,
            r.tasks@ == Seq::<TaskRecord>::empty(),
    {
        LifecycleManager { tasks: Vec::new(), shutdown: false, reason: None }
    }

    /// Spawns a task of the given class; returns its handle.
    pub fn spawn(&mut self, class: TaskClass) -> (id: usize)
        requires
            old(self).wf(),
            !old(self).shutdown,
        ensures
            final(self).wf(),
            !final(self).shutdown,
            id == old(self).tasks@.len(),
            final(self).tasks@ == old(self).tasks@.push(
                TaskRecord { class, status: TaskStatus::Running },
            ),
            final(self).reason == old(self).reason,
    {
        let id = self.tasks.len();
        self.tasks.push(TaskRecord { class, status: TaskStatus::Running });
        id
    }

    /// Whether the service has shut down.
    pub fn is_shutdown(&self) -> (r: bool)
        ensures
            r == self.shutdown,
    {
        self.shutdown
    }

    /// Records that a task terminated. An essential task's termination —
    /// success or failure alike — shuts the service down, records the reason,
    /// and cancels every other task still running. A best-effort task's
    /// termination only updates its record.
    pub fn on_task_terminated(&mut self, id: usize, failed: bool)
        requires
            old(self).wf(),
            id < old(self).tasks@.len(),
        ensures
            final(self).wf(),
            final(self).tasks@.len() == old(self).tasks@.len(),
            final(self).tasks@[id as int].status == if failed {
                TaskStatus::Failed
            } else {
                TaskStatus::Finished
            },
            final(self).tasks@[id as int].class == old(self).tasks@[id as int].class,
            old(self).tasks@[id as int].class is Essential ==> {
                &&& final(self).shutdown
                &&& final(self).reason == Some(
                    if failed {
                        ShutdownReason::EssentialTaskFailed { task: id }
                    } else {
                        ShutdownReason::EssentialTaskFinished { task: id }
                    },
                )
                &&& forall|i: int|
                    0 <= i < final(self).tasks@.len() && i != id ==> (#[trigger] final(self).tasks@[i]).status
                        == (if old(self).tasks@[i].status is Running {
                        TaskStatus::Cancelled
                    } else {
                        old(self).tasks@[i].status
                    }) && final(self).tasks@[i].class == old(self).tasks@[i].class
            },
            old(self).tasks@[id as int].class is BestEffort ==> {
                &&& final(self).shutdown == old(self).shutdown
                &&& final(self).reason == old(self).reason
                &&& forall|i: int|
                    0 <= i < final(self).tasks@.len() && i != id ==> final(self).tasks@[i]
                        == old(self).tasks@[i]
            },
    {
        let class = self.tasks[id].class;
        let status = if failed {
            TaskStatus::Failed
        } else {
            TaskStatus::Finished
        };
        self.tasks.set(id, TaskRecord { class, status });
        match class {
            TaskClass::BestEffort => {},
            TaskClass::Essential => {
                let mut i: usize = 0;
                while i < self.tasks.len()
                    invariant
                        i <= self.tasks@.len(),
                        self.tasks@.len() == old(self).tasks@.len(),
                        self.tasks@[id as int].status == status,
                        self.tasks@[id as int].class == class,
                        id < self.tasks@.len(),
                        forall|j: int|
                            0 <= j < i && j != id ==> (#[trigger] self.tasks@[j]).status == (
                            if old(self).tasks@[j].status is Running {
                                TaskStatus::Cancelled
                            } else {
                                old(self).tasks@[j].status
                            }) && self.tasks@[j].class == old(self).tasks@[j].class,
                        forall|j: int|
                            i <= j < self.tasks@.len() && j != id ==> self.tasks@[j] == old(
                                self,
                            ).tasks@[j],
                    decreases self.tasks.len() - i,
                {
                    if i != id {
                        let t = self.tasks[i];
                        if matches!(t.status, TaskStatus::Running) {
                            self.tasks.set(i, TaskRecord { class: t.class, status: TaskStatus::Cancelled });
                        }
                    }
                    i = i + 1;
                }
                self.shutdown = true;
                self.reason = Some(
                    if failed {
                        ShutdownReason::EssentialTaskFailed { task: id }
                    } else {
                        ShutdownReason::EssentialTaskFinished { task: id }
                    },
                );
            },
        }
    }
}

} // verus!
