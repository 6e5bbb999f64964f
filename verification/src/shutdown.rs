//! How long a stage may take to drain, and how its draining ended.

use vstd::prelude::*;

use crate::clock::Duration;

verus! {

/// How long running work may take to finish once shutdown has begun.
#[derive(Debug, Clone, Copy, PartialEq, Eq, Structural)]
pub struct RuntimeShutdownConfig {
    pub drain_timeout: Duration,
}

/// The drain timeout is zero.
#[derive(Debug, Clone, Copy, PartialEq, Eq, Structural)]
pub enum RuntimeShutdownConfigError {
    ZeroDrainTimeout,
}

impl Default for RuntimeShutdownConfig {
    fn default() -> (config: RuntimeShutdownConfig)
        ensures
            config == default_shutdown(),
    {
        RuntimeShutdownConfig { drain_timeout: Duration { nanos: 10_000_000_000 } }
    }
}

/// Ten seconds.
pub open spec fn default_shutdown() -> RuntimeShutdownConfig {
    RuntimeShutdownConfig { drain_timeout: Duration { nanos: 10_000_000_000 } }
}

impl RuntimeShutdownConfig {
    /// A configuration with that drain timeout.
    pub fn new(drain_timeout: Duration) -> (config: RuntimeShutdownConfig)
        ensures
            config.drain_timeout == drain_timeout,
    {
        RuntimeShutdownConfig { drain_timeout }
    }

    /// Refuses a drain timeout of zero.
    pub fn validate(&self) -> (result: Result<(), RuntimeShutdownConfigError>)
        ensures
            result == (if self.drain_timeout.nanos == 0 {
                Err(RuntimeShutdownConfigError::ZeroDrainTimeout)
            } else {
                Ok(())
            }),
    {
        if self.drain_timeout.is_zero() {
            Err(RuntimeShutdownConfigError::ZeroDrainTimeout)
        } else {
            Ok(())
        }
    }
}

/// How a stage's draining ended: all its tasks completed, or some had to be
/// aborted at the deadline.
#[derive(Debug, Clone, Copy, PartialEq, Eq, Structural)]
pub enum RuntimeShutdownOutcome {
    Drained { completed_tasks: usize },
    Forced { completed_tasks: usize, aborted_tasks: usize },
}

impl RuntimeShutdownOutcome {
    /// Whether tasks had to be aborted.
    pub fn was_forced(self) -> (forced: bool)
        ensures
            forced == self is Forced,
    {
        match self {
            RuntimeShutdownOutcome::Drained { .. } => false,
            RuntimeShutdownOutcome::Forced { .. } => true,
        }
    }
}

/// What happened while tasks were drained.
#[derive(Debug, Clone, Copy, PartialEq, Eq, Structural)]
pub enum DrainEvent {
    /// A task ended.
    TaskEnded,
    /// No task is left.
    NoneLeft,
    /// The deadline has passed, and so many tasks are left.
    DeadlinePassed { left: usize },
}

/// Tasks that are being drained, and how many of them have ended.
#[derive(Debug, Clone, Copy, PartialEq, Eq, Structural)]
pub struct DrainProgress {
    pub completed_tasks: usize,
}

/// How far a drain has come after what happened, and how it ended, where it has.
pub open spec fn drain_leads_to(drain: DrainProgress, event: DrainEvent) -> (
    int,
    Option<RuntimeShutdownOutcome>,
) {
    match event {
        DrainEvent::TaskEnded => (drain.completed_tasks + 1, None),
        DrainEvent::NoneLeft => (
            drain.completed_tasks as int,
            Some(RuntimeShutdownOutcome::Drained { completed_tasks: drain.completed_tasks }),
        ),
        DrainEvent::DeadlinePassed { left } => (
            drain.completed_tasks as int,
            Some(
                RuntimeShutdownOutcome::Forced {
                    completed_tasks: drain.completed_tasks,
                    aborted_tasks: left,
                },
            ),
        ),
    }
}

impl DrainProgress {
    /// A drain in which no task has ended yet.
    pub fn start() -> (drain: DrainProgress)
        ensures
            drain.completed_tasks == 0,
    {
        DrainProgress { completed_tasks: 0 }
    }

    /// Takes what happened; the drain is over once no task is left, or at the
    /// deadline, when those left are aborted.
    pub fn step(&mut self, event: DrainEvent) -> (outcome: Option<RuntimeShutdownOutcome>)
        requires
            old(self).completed_tasks < usize::MAX,
        ensures
            (final(self).completed_tasks as int, outcome) == drain_leads_to(*old(self), event),
            final(self).completed_tasks == (if event is TaskEnded {
                old(self).completed_tasks + 1
            } else {
                old(self).completed_tasks as int
            }),
            outcome == (match event {
                DrainEvent::TaskEnded => None,
                DrainEvent::NoneLeft => Some(
                    RuntimeShutdownOutcome::Drained {
                        completed_tasks: old(self).completed_tasks,
                    },
                ),
                DrainEvent::DeadlinePassed { left } => Some(
                    RuntimeShutdownOutcome::Forced {
                        completed_tasks: old(self).completed_tasks,
                        aborted_tasks: left,
                    },
                ),
            }),
    {
        match event {
            DrainEvent::TaskEnded => {
                self.completed_tasks = self.completed_tasks + 1;
                None
            },
            DrainEvent::NoneLeft => Some(
                RuntimeShutdownOutcome::Drained { completed_tasks: self.completed_tasks },
            ),
            DrainEvent::DeadlinePassed { left } => Some(
                RuntimeShutdownOutcome::Forced {
                    completed_tasks: self.completed_tasks,
                    aborted_tasks: left,
                },
            ),
        }
    }
}

/// How draining `task_count` tasks ended, where so many of them had to be aborted
/// at the deadline, or none.
pub open spec fn drained(task_count: usize, aborted: Option<usize>) -> RuntimeShutdownOutcome {
    match aborted {
        None => RuntimeShutdownOutcome::Drained { completed_tasks: task_count },
        Some(aborted_tasks) => RuntimeShutdownOutcome::Forced {
            completed_tasks: if task_count >= aborted_tasks {
                (task_count - aborted_tasks) as usize
            } else {
                0
            },
            aborted_tasks,
        },
    }
}

/// How draining `task_count` tasks ended, where so many of them had to be aborted
/// at the deadline, or none.
pub fn drain_outcome(task_count: usize, aborted: Option<usize>) -> (outcome:
    RuntimeShutdownOutcome)
    ensures
        outcome == drained(task_count, aborted),
        outcome == (match aborted {
            None => RuntimeShutdownOutcome::Drained { completed_tasks: task_count },
            Some(aborted_tasks) => RuntimeShutdownOutcome::Forced {
                completed_tasks: if task_count >= aborted_tasks {
                    (task_count - aborted_tasks) as usize
                } else {
                    0
                },
                aborted_tasks,
            },
        }),
{
    match aborted {
        None => RuntimeShutdownOutcome::Drained { completed_tasks: task_count },
        Some(aborted_tasks) => RuntimeShutdownOutcome::Forced {
            completed_tasks: task_count.saturating_sub(aborted_tasks),
            aborted_tasks,
        },
    }
}

/// A task that ends is counted and ends no drain; a drain is over when none is left, or
/// at the deadline, and reports as many tasks as have ended and had to be aborted.
pub proof fn drains_count_every_task(drain: DrainProgress, left: usize)
    ensures
        drain_leads_to(drain, DrainEvent::TaskEnded).0 - drain.completed_tasks == 1,
        drain_leads_to(drain, DrainEvent::TaskEnded).1 is None,
        drain_leads_to(drain, DrainEvent::NoneLeft).1 is Some,
        drain_leads_to(drain, DrainEvent::NoneLeft).1->0 is Drained,
        drain_leads_to(drain, DrainEvent::NoneLeft).1->0->Drained_completed_tasks
            == drain.completed_tasks,
        drain_leads_to(drain, DrainEvent::DeadlinePassed { left }).1 is Some,
        drain_leads_to(drain, DrainEvent::DeadlinePassed { left }).1->0 is Forced,
        drain_leads_to(drain, DrainEvent::DeadlinePassed { left }).1->0->Forced_completed_tasks
            == drain.completed_tasks,
        drain_leads_to(drain, DrainEvent::DeadlinePassed { left }).1->0->aborted_tasks == left,
{
}

/// Of the tasks that were drained each one completed or was aborted, and a drain in
/// which none was aborted was not forced.
pub proof fn drained_tasks_are_accounted_for(task_count: usize, aborted: Option<usize>)
    requires
        aborted matches Some(n) ==> n <= task_count,
    ensures
        aborted is None <==> drained(task_count, aborted) is Drained,
        match drained(task_count, aborted) {
            RuntimeShutdownOutcome::Drained { completed_tasks } => completed_tasks == task_count,
            RuntimeShutdownOutcome::Forced { completed_tasks, aborted_tasks } => completed_tasks
                + aborted_tasks == task_count && aborted == Some(aborted_tasks),
        },
{
}

} // verus!
